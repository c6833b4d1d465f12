//! Core of an interactive telemetry dashboard for uncrewed vehicles.
//!
//! The crate models the session event loop of the dashboard: operator
//! keystrokes and decoded telemetry messages are merged into one ordered
//! stream, applied to an in-memory vehicle model, and answered with redraw
//! and request decisions.  Transport I/O, terminal handling and rendering
//! live outside this crate; they hand plain values in and take plain values
//! back.

pub mod input;
pub mod limiter;
pub mod mission;
pub mod msg;
pub mod params;
pub mod screen;
pub mod session;
pub mod state;
pub mod subscriber;
pub mod vehicle;

use vstd::prelude::*;

verus! {

/// Command-line surface of the dashboard: the single connection address,
/// in the form `(tcpout|tcpin|udpout|udpin|udpbcast|serial|file):(ip|dev|path):(port|baud)`.
/// The address is passed opaquely to the transport; this crate does not
/// parse it further.
pub struct Args {
    pub address: String,
}

} // verus!
