//! Transformations of shapes: each holds the shape it moves and the motion.
use vstd::prelude::*;
use glam::{Mat3, Vec2, Vec3};

verus! {

/// A 2D shape moved by `offset`.
pub struct Translate2D<F> {
    pub inner: F,
    pub offset: Vec2,
}

impl<F> Translate2D<F> {
    pub fn new(inner: F, offset: Vec2) -> (r: Self)
        ensures
            r.inner == inner,
            r.offset == offset,
    {
        Self { inner, offset }
    }
}

/// A 3D shape moved by `offset`.
pub struct Translate3D<F> {
    pub inner: F,
    pub offset: Vec3,
}

impl<F> Translate3D<F> {
    pub fn new(inner: F, offset: Vec3) -> (r: Self)
        ensures
            r.inner == inner,
            r.offset == offset,
    {
        Self { inner, offset }
    }
}

/// A 3D shape rotated by `rotation_matrix`; `inverse_matrix` maps points back.
pub struct Rotate3D<F> {
    pub inner: F,
    pub rotation_matrix: Mat3,
    pub inverse_matrix: Mat3,
}

} // verus!
