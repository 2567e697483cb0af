//! Constructive solid geometry: the union, intersection and difference of two
//! shapes. Each operation holds its two operands; how it combines their
//! signed distances is given by the shapes' evaluation.
use vstd::prelude::*;

verus! {

// ===== 2D CSG Operations =====

/// Union of two 2D shapes.
pub struct Union2D<A, B> {
    pub a: A,
    pub b: B,
}

impl<A, B> Union2D<A, B> {
    pub fn new(a: A, b: B) -> (r: Self)
        ensures
            r.a == a,
            r.b == b,
    {
        Self { a, b }
    }
}

/// Intersection of two 2D shapes.
pub struct Intersection2D<A, B> {
    pub a: A,
    pub b: B,
}

impl<A, B> Intersection2D<A, B> {
    pub fn new(a: A, b: B) -> (r: Self)
        ensures
            r.a == a,
            r.b == b,
    {
        Self { a, b }
    }
}

/// Difference of two 2D shapes (`a` minus `b`).
pub struct Difference2D<A, B> {
    pub a: A,
    pub b: B,
}

impl<A, B> Difference2D<A, B> {
    pub fn new(a: A, b: B) -> (r: Self)
        ensures
            r.a == a,
            r.b == b,
    {
        Self { a, b }
    }
}

// ===== 3D CSG Operations =====

/// Union of two 3D shapes.
pub struct Union3D<A, B> {
    pub a: A,
    pub b: B,
}

impl<A, B> Union3D<A, B> {
    pub fn new(a: A, b: B) -> (r: Self)
        ensures
            r.a == a,
            r.b == b,
    {
        Self { a, b }
    }
}

/// Intersection of two 3D shapes.
pub struct Intersection3D<A, B> {
    pub a: A,
    pub b: B,
}

impl<A, B> Intersection3D<A, B> {
    pub fn new(a: A, b: B) -> (r: Self)
        ensures
            r.a == a,
            r.b == b,
    {
        Self { a, b }
    }
}

/// Difference of two 3D shapes (`a` minus `b`).
pub struct Difference3D<A, B> {
    pub a: A,
    pub b: B,
}

impl<A, B> Difference3D<A, B> {
    pub fn new(a: A, b: B) -> (r: Self)
        ensures
            r.a == a,
            r.b == b,
    {
        Self { a, b }
    }
}

} // verus!
