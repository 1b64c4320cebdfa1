//! A minimal countdown-timer core: a three-state run/pause/expire state
//! machine over millisecond timestamps, the duration arithmetic that derives
//! the remaining time, and the `MM:SS` rendering of it.
//!
//! The clock is external: every operation that depends on the current time
//! takes it as an explicit `now_ms` argument, a count of milliseconds on some
//! monotonic-enough wall clock. The UI shell reads the clock, forwards events
//! and paints; all decisions are made here.

pub mod controller;
pub mod data;
pub mod display;
pub mod laws;
pub mod start_button;
