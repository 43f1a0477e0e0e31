//! Driver logic for generating a pulse-width-modulated square wave on one
//! lane of a programmable waveform engine.
//!
//! The library decides everything the driver does: it checks a request,
//! derives the period and duty tick counts that the engine consumes, builds
//! the lane configuration, and records what the lane was last told to do.
//! Touching the engine and reading the reference clock is left to the caller,
//! which carries out the plans this library hands back.
use vstd::prelude::*;

pub mod config;
pub mod driver;
pub mod error;
pub mod program;
pub mod timing;

pub use config::LaneConfiguration;
pub use driver::{ArmPlan, LaneState, PioPwm};
pub use error::ErrorCode;
pub use timing::PeriodDuty;
