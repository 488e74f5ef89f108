//! Core engine for orchestrating external media-processing jobs: building
//! command invocations, tracking live progress output, enforcing mutual
//! exclusion and cancellation, and validating results.
//!
//! Durations are carried as integer microseconds and frame rates as integer
//! thousandths of a frame per second, so that every rule about them can be
//! stated and proved exactly.

pub mod command;
pub mod framerate;
pub mod guard;
pub mod outcome;
pub mod probe;
pub mod progress;
pub mod rife;
pub mod status;
pub mod strutil;
pub mod supervisor;
pub mod timefmt;
pub mod validation;
