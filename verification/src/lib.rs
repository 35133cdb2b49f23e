//! Verified building blocks of a two-dimensional acoustic ray tracer.
//!
//! A room is a [`model::Space`] of walls, speakers and microphones. A ray is
//! followed from a microphone from wall to wall; wherever it has a free line
//! to a speaker, a response is heard. The responses of many rays are summed
//! into an impulse: a buffer of samples that says how the room answers a
//! click.
//!
//! This crate holds what in all this is decided on whole numbers and on the
//! order of things, and proves it: the handles of a space ([`model`]), the
//! choice of the nearest hit and the course of a trace ([`tracer`]), the
//! layout of the impulse buffer ([`impulse`]), the names of the output files
//! ([`rendering`]), the generational set in which an editor keeps its objects
//! ([`sparse_set`], [`editor`]), and what the tools of the editor make of the
//! pointer and the keyboard ([`tool`], [`commands`]). Points and scalar
//! quantities are of types that the caller chooses; the crate stores them and
//! hands them back, and the arithmetic on them is the caller's.

pub mod commands;
pub mod editor;
pub mod impulse;
pub mod model;
pub mod ray;
pub mod rendering;
pub mod response;
pub mod sparse_set;
pub mod style;
pub mod text;
pub mod tool;
pub mod tracer;
