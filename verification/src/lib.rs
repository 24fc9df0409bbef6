//! A small real-time fan-out service core.
//!
//! `registry` tracks the set of currently connected peers; `envelope`
//! classifies inbound frames; `hub` decides which peers a frame is fanned
//! out to; `supervisor` is the state machine for the lifecycle of one
//! managed worker process.

pub mod envelope;
pub mod hub;
pub mod registry;
pub mod supervisor;
