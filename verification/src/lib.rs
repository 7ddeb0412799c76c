//! A terminal dashboard that shows the latest free-memory sample and quits on
//! Esc or 'q'. The event model, the state machine that folds drained events,
//! and the rendering decisions are verified here; terminal, thread and channel
//! plumbing lives outside the library.

pub mod app;
pub mod event;
pub mod render;

use vstd::prelude::*;

verus! {

/// How long the run loop pauses between ticks, in milliseconds.
pub const TICK_MILLIS: u64 = 100;

/// How long the metric sampler pauses between samples, in milliseconds.
pub const SAMPLE_MILLIS: u64 = 500;

} // verus!
