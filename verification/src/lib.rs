//! Watches which application window has keyboard focus and turns that stream
//! of observations into time-stamped heartbeats for an activity-tracking
//! backend.
//!
//! The verified core is the sampling and heartbeat-merging pipeline: a title
//! redactor driven by configurable inclusion/exclusion rules, a normalizer
//! that packages an observation into an [`sample::ActivitySample`], and the
//! heartbeat merger, a state machine that decides on every poll tick whether
//! the observed activity continues the previous one or replaces it, and which
//! heartbeats to emit for either case. The platform window query, the command
//! line, and the network client live outside the library and hand it plain
//! values.

pub mod merger;
pub mod pattern;
pub mod pipeline;
pub mod rules;
pub mod sample;
pub mod schedule;
