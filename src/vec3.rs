//! A three-component value, used as a point, a direction or an RGB colour.
//!
//! The components are addressed by name (`x`, `y`, `z`, or `r`, `g`, `b` for a
//! colour) or by index `0`, `1`, `2`. The component type is left open, so the
//! same container serves any numeric representation.
use vstd::prelude::*;

verus! {

/// Three components, stored in index order.
#[derive(Clone, Copy, Debug)]
pub struct Vec3<T> {
    pub e: [T; 3],
}

impl<T: Copy> Vec3<T> {
    /// The components as a sequence of length three.
    pub open spec fn view(&self) -> Seq<T> {
        self.e@
    }

    /// The vector with components `e0`, `e1`, `e2`.
    pub fn new(e0: T, e1: T, e2: T) -> (v: Vec3<T>)
        ensures
            v@ == seq![e0, e1, e2],
    {
        let v = Vec3 { e: [e0, e1, e2] };
        assert(v@ =~= seq![e0, e1, e2]);
        v
    }

    /// The first component.
    pub fn x(&self) -> (r: T)
        ensures
            r == self@[0],
    {
        self.e[0]
    }

    /// The second component.
    pub fn y(&self) -> (r: T)
        ensures
            r == self@[1],
    {
        self.e[1]
    }

    /// The third component.
    pub fn z(&self) -> (r: T)
        ensures
            r == self@[2],
    {
        self.e[2]
    }

    /// The red channel: the first component.
    pub fn r(&self) -> (r: T)
        ensures
            r == self@[0],
    {
        self.e[0]
    }

    /// The green channel: the second component.
    pub fn g(&self) -> (r: T)
        ensures
            r == self@[1],
    {
        self.e[1]
    }

    /// The blue channel: the third component.
    pub fn b(&self) -> (r: T)
        ensures
            r == self@[2],
    {
        self.e[2]
    }

    /// The component at index `i`; an index past `2` is a caller error.
    pub fn index(&self, i: usize) -> (r: &T)
        requires
            i < 3,
        ensures
            *r == self@[i as int],
    {
        &self.e[i]
    }

    /// The component at index `i`, or `None` for an index past `2`.
    pub fn get(&self, i: usize) -> (r: Option<T>)
        ensures
            i < 3 ==> r == Some(self@[i as int]),
            i >= 3 ==> r.is_none(),
    {
        if i < 3 {
            Some(self.e[i])
        } else {
            None
        }
    }

    /// Replaces the component at index `i` with `c`, leaving the others.
    pub fn set(&mut self, i: usize, c: T)
        requires
            i < 3,
        ensures
            final(self)@ == old(self)@.update(i as int, c),
    {
        self.e[i] = c;
    }
}

} // verus!
