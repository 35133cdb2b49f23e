//! What a traced ray leaves behind.

use crate::ray::{Ray, RayHit};
use vstd::prelude::*;

verus! {

/// An impulse response traced from a single bounce: when it arrives, how
/// loud, and after how many bounces.
#[derive(Debug, Clone, Copy)]
pub struct Response<S> {
    pub time: S,
    pub loudness: S,
    pub bounces: usize,
}

/// What a ray is for.
#[derive(Debug, Clone, Copy, PartialEq, Eq, Structural)]
pub enum RayPurpose {
    /// Used for generating bounces against walls.
    Bounce,
    /// Used for tracing back to the speaker.
    Trace,
}

impl RayPurpose {
    /// Returns `true` if the ray purpose is [`RayPurpose::Bounce`].
    #[must_use]
    pub fn is_bounce(&self) -> (b: bool)
        ensures
            b <==> *self == RayPurpose::Bounce,
    {
        matches!(self, RayPurpose::Bounce)
    }
}

/// A ray that was cast during a trace, with what it was cast for and what it
/// met.
#[derive(Debug, Clone, Copy)]
pub struct RecordedRay<P> {
    pub purpose: RayPurpose,
    pub ray: Ray<P>,
    pub hit: RayHit<P>,
}

/// Recording of impulse responses: the responses that one traced ray
/// produced and, where rays were recorded, every ray cast on the way, in the
/// order of casting.
#[derive(Debug, Clone)]
pub struct Recording<P, S> {
    pub responses: Vec<Response<S>>,
    pub rays: Vec<RecordedRay<P>>,
}

} // verus!
