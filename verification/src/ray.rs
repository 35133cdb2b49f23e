//! Rays, segments and hits.
//!
//! A point of the plane is of a type `P` that this module only stores. What
//! the tracer has to decide about a hit, which of several is nearest, it
//! decides by the hit's [`Length`].

use crate::model::Wall;
use vstd::prelude::*;

verus! {

/// A distance along a ray, held as a key that orders like the distance: of
/// two distances the smaller has the smaller key, and equal distances have
/// equal keys. The bit pattern of a non-negative IEEE 754 single-precision
/// number that is not a NaN is such a key for that number.
#[derive(Debug, Clone, Copy, PartialEq, Eq, Structural)]
pub struct Length(pub u32);

/// A line segment from `a` to `b`.
#[derive(Debug, Clone, Copy)]
pub struct LineSegment<P> {
    pub a: P,
    pub b: P,
}

impl<P: Copy> LineSegment<P> {
    /// The segment that `wall` stands on, in the wall's direction.
    pub fn from_wall(wall: &Wall<P>) -> (segment: Self)
        ensures
            segment.a == wall.start,
            segment.b == wall.end,
    {
        Self { a: wall.start, b: wall.end }
    }
}

/// A ray from `start` in `direction`.
#[derive(Debug, Clone, Copy)]
pub struct Ray<P> {
    pub start: P,
    pub direction: P,
}

/// Where a ray met something, and how far along the ray that was.
#[derive(Debug, Clone, Copy)]
pub struct RayHit<P> {
    pub position: P,
    pub ray_length: Length,
}

} // verus!
