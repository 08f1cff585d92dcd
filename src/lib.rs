//! Telemetry and command session with a vehicle autopilot: decoding of the
//! telemetry kinds the session consumes, the outbound command payloads, and
//! the session's lifecycle controller with its keepalive cadence.
use vstd::prelude::*;

pub mod codec;
pub mod commands;
pub mod session;
pub mod telemetry;

verus! {

} // verus!
