//! A background liveness-signaling client.
//!
//! A monitored service periodically pings an external monitoring endpoint so
//! that the monitor can alert when the pings stop arriving. This crate holds
//! the verified core of such a client: the configuration resolver that turns
//! an environment-like key-value source into a validated heartbeat
//! configuration, and the state machine that drives the periodic ping loop.
//! The host process performs the actual HTTP requests and timer waits, feeding
//! each outcome back into the machine.

pub mod config;
pub mod machine;
pub mod text;
