//! Motion: how long inputs take to show, and the walker that turns a planned
//! path into holds and taps and watches a hold as it runs.

pub mod syncer;
pub mod walker;

pub use syncer::{Estimate, InputKind, Timing};
pub use walker::{HoldTracker, StepDone, Track, WalkStep, Walker};
