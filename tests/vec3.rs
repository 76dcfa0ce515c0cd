use gradient_ppm::vec3::Vec3;

#[test]
fn named_components() {
    let v = Vec3::new(1.5f32, -2.0, 0.25);
    assert_eq!(v.x(), 1.5);
    assert_eq!(v.y(), -2.0);
    assert_eq!(v.z(), 0.25);
    assert_eq!(v.r(), 1.5);
    assert_eq!(v.g(), -2.0);
    assert_eq!(v.b(), 0.25);
    assert_eq!(v.e, [1.5, -2.0, 0.25]);
}

#[test]
fn index_agrees_with_names() {
    let v = Vec3::new(7i64, 8, 9);
    assert_eq!(*v.index(0), v.x());
    assert_eq!(*v.index(1), v.y());
    assert_eq!(*v.index(2), v.z());
}

#[test]
fn index_past_two_gives_nothing() {
    let v = Vec3::new(7i64, 8, 9);
    assert_eq!(v.get(0), Some(7));
    assert_eq!(v.get(1), Some(8));
    assert_eq!(v.get(2), Some(9));
    assert_eq!(v.get(3), None);
    assert_eq!(v.get(usize::MAX), None);
}

#[test]
fn set_replaces_one_component() {
    let mut v = Vec3::new(1u8, 2, 3);
    v.set(1, 20);
    assert_eq!(v.e, [1, 20, 3]);
    v.set(0, 10);
    v.set(2, 30);
    assert_eq!((v.x(), v.y(), v.z()), (10, 20, 30));
}

#[test]
fn copies_are_independent() {
    let a = Vec3::new(0.5f32, 0.5, 0.5);
    let mut b = a;
    b.set(2, 1.0);
    assert_eq!(a.z(), 0.5);
    assert_eq!(b.z(), 1.0);
}
