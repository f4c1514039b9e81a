//! Verified core of an interactive Chaikin corner-cutting demo.
//!
//! The library has two parts: a refinement engine (`refine`), a pure
//! function that performs one corner-cutting pass over a polyline, and a
//! step sequencer (`session`), the state machine that decides which
//! refinement level is on display as an animation advances.
//!
//! Coordinates are unsigned integers; a presentation layer is free to map
//! screen pixels onto them with a fixed-point scale of its choosing.  Time
//! is measured in milliseconds.

#![allow(unused_imports)]
use vstd::prelude::*;

pub mod geom;
pub mod refine;
pub mod session;

verus! {

/// Highest refinement level kept in the ladder; levels run 0 ..= MAX_STEPS.
pub const MAX_STEPS: usize = 7;

/// How long one refinement level stays on display, in milliseconds.
pub const STEP_DURATION_MS: u64 = 700;

} // verus!
