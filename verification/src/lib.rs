//! Supervision of one child process on behalf of a background service.
//!
//! The crate holds the decisions of a service supervisor and leaves every
//! effect to its caller: how launch parameters are read from raw lookups,
//! what a launch request contains, how control events are answered, and the
//! state machine that turns the outcome of each effect into the next one.

pub mod config;
pub mod control;
pub mod launch;
pub mod status;
pub mod supervisor;
pub mod trace;
