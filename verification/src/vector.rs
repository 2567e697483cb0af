//! The vector and matrix types of `glam` that shapes and views carry.
//! Their components are floating point, so the library holds them whole and
//! never looks inside.
use vstd::prelude::*;

verus! {

#[verifier::external_type_specification]
#[verifier::external_body]
pub struct ExVec2(glam::Vec2);

#[verifier::external_type_specification]
#[verifier::external_body]
pub struct ExVec3(glam::Vec3);

#[verifier::external_type_specification]
#[verifier::external_body]
pub struct ExMat3(glam::Mat3);

/// The 2D vector whose components are the integers `x` and `y`.
pub uninterp spec fn vec2_of_ints(x: i32, y: i32) -> glam::Vec2;

/// Calls `glam::IVec2::as_vec2` on `IVec2::new(x, y)`, which converts each
/// integer component to `f32`; the result is named by [`vec2_of_ints`].
#[verifier::external_body]
pub(crate) fn vec2_from_ints(x: i32, y: i32) -> (v: glam::Vec2)
    ensures
        v == vec2_of_ints(x, y),
{
    glam::IVec2::new(x, y).as_vec2()
}

} // verus!
