//! Core of a remote-drive link: one operator ("controller") steers a vehicle
//! over a single bidirectional message stream. This crate holds the verified
//! logic of that link: the wire codec for the command envelope, the motion
//! arbiter that turns raw throttle targets into safe actuator pulses, the
//! cooperative poll-driver bookkeeping, and the per-session state machines of
//! both ends. All hardware and transport access lives outside, in the
//! surrounding application, which feeds plain values in and carries the
//! resulting commands out.

use vstd::prelude::*;

pub mod arbiter;
pub mod codec;
pub mod controller;
pub mod driver;
pub mod vehicle;

verus! {

/// Why a session ended. `StreamClosed` is the ordinary termination path;
/// the other two are faults that still demand the same safety cleanup.
#[derive(Clone, Copy, Debug, PartialEq, Eq, Structural)]
pub enum Termination {
    /// The peer or the local end closed the stream.
    StreamClosed,
    /// An inbound frame did not parse as a well-formed envelope.
    MalformedEnvelope,
    /// The actuator sink rejected a command.
    ActuatorFault,
}

} // verus!
