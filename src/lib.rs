//! Coordination core of one round of threshold signing: per-session state,
//! deterministic aggregator selection, and the single-use round state machine.

pub mod session;
pub mod protocol;
pub mod round;
pub mod state;
pub mod config;
