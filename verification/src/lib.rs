//! Countdown timers for up to eight herb patches.
//!
//! Each patch hosts at most one growth cycle of a fixed 90-minute duration.
//! A timer can be paused, resumed and reset; every query (remaining time,
//! progress, readiness, formatted display) is a pure function of the stored
//! state and a wall-clock reading taken at query time, so the library stays
//! correct under any polling frequency.

use vstd::prelude::*;

mod clock;
pub mod render;
pub mod timer;
pub mod registry;
pub mod laws;

verus! {

/// Length of one growth cycle: 90 minutes, in milliseconds.
pub const FIXED_DURATION_MS: i64 = 5_400_000;

} // verus!
