//! A three-component vector type and the text rendering of a colour-ramp
//! test image in the plain PPM (`P3`) format.
//!
//! Every byte of the image is computed with exact integer arithmetic, and each
//! function is proved to produce the text its specification describes.
use vstd::prelude::*;

pub mod decimal;
pub mod image;
pub mod vec3;

verus! {

} // verus!
