//! Primitive shapes whose size is a vector: the rectangle and the box.
use vstd::prelude::*;
use glam::{Vec2, Vec3};

verus! {

/// 2D rectangle centred at the origin, by its half extents.
#[derive(Clone, Copy, Debug)]
pub struct Rectangle {
    pub half_extents: Vec2,
}

/// 3D box centred at the origin, by its half extents.
#[derive(Clone, Copy, Debug)]
pub struct Box {
    pub half_extents: Vec3,
}

} // verus!
