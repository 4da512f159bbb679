//! Execution core of an overlay-routing node: a deferred-effect command
//! engine (`Context` / `Command` / `TimerTokenAllocator`) and a
//! traffic-accounting subsystem (`Stats`).
//!
//! Handlers never touch the network or the timer subsystem directly: they
//! record intended actions into a [`context::Context`], whose queue an
//! external executor later drains and performs. [`stats::Stats`] classifies
//! and counts every message the node sends or receives.

pub mod command;
pub mod context;
pub mod laws;
pub mod messages;
pub mod stats;
pub mod timer;
