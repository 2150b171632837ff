//! Vehicle-side session logic.
//!
//! One session runs per connected controller. The surrounding loop blocks
//! until a frame arrives (or the stream closes, or the actuator faults) and
//! feeds the event here; this machine decodes the frame, drives targets
//! through the motion arbiter, and says what the loop must do: which pulses
//! to apply, which report to send back, and whether the session is over.
//! Every path out of a session ends by returning the actuator to its safe
//! neutral position — that reset is a hard safety invariant, not optional
//! cleanup.

use vstd::prelude::*;

use crate::Termination;
use crate::arbiter::Mode;
use crate::arbiter::MotionState;
use crate::arbiter::spec_arb_throttle;
use crate::arbiter::spec_brake_edge;
use crate::arbiter::spec_next_mode;
use crate::codec::Envelope;
use crate::codec::Payload;
use crate::codec::decode;
use crate::codec::spec_decode;

verus! {

/// One request to the actuator sink, in the order the loop must issue them.
#[derive(Clone, Copy, Debug, PartialEq, Eq, Structural)]
pub enum ActuatorOp {
    /// Apply these pulses; the throttle has already been arbitrated.
    Apply { steer_pulse: i32, throttle_pulse: i32 },
    /// Return the actuator to the known-safe neutral position.
    Reset,
}

/// What one vehicle session observes from the outside between decisions.
#[derive(Debug)]
pub enum SessionEvent {
    /// One complete frame came off the stream.
    Frame(Vec<u8>),
    /// The stream was closed, by the peer or locally.
    Closed,
    /// The actuator sink rejected the previous command.
    Fault,
}

/// What one step of the session decides.
#[derive(Debug)]
pub struct StepOutput {
    /// Actuator requests to issue, in order.
    pub ops: Vec<ActuatorOp>,
    /// The state report to send back, correlated with the command's token.
    pub report: Option<Envelope>,
    /// Whether the brake edge fired on this sample.
    pub brake_edge: bool,
    /// Set exactly when the session is over, and why.
    pub done: Option<Termination>,
}

/// One vehicle-side session: the motion state it owns and whether it is
/// still running.
pub struct VehicleSession {
    pub motion: MotionState,
    pub active: bool,
}

impl VehicleSession {
    /// Opens a session. The motion state starts in `Neutral`, and the very
    /// first actuator request — before any command is processed — puts the
    /// actuator into its known-safe neutral position.
    pub fn start() -> (r: (Self, StepOutput))
        ensures
            r.0.active,
            r.0.motion.mode == Mode::Neutral,
            r.1.ops@ == seq![ActuatorOp::Reset],
            r.1.report is None,
            r.1.done is None,
            !r.1.brake_edge,
    {
        let mut ops: Vec<ActuatorOp> = Vec::new();
        ops.push(ActuatorOp::Reset);
        proof {
            assert(ops@ =~= seq![ActuatorOp::Reset]);
        }
        (
            VehicleSession { motion: MotionState::new(), active: true },
            StepOutput { ops, report: None, brake_edge: false, done: None },
        )
    }

    fn terminate(&mut self, t: Termination) -> (out: StepOutput)
        ensures
            !final(self).active,
            final(self).motion.mode == Mode::Neutral,
            out.ops@ == seq![ActuatorOp::Reset],
            out.report is None,
            !out.brake_edge,
            out.done == Some(t),
    {
        self.active = false;
        self.motion = MotionState::new();
        let mut ops: Vec<ActuatorOp> = Vec::new();
        ops.push(ActuatorOp::Reset);
        proof {
            assert(ops@ =~= seq![ActuatorOp::Reset]);
        }
        StepOutput { ops, report: None, brake_edge: false, done: Some(t) }
    }

    /// Feeds the session one event.
    ///
    /// Reset-on-exit: every terminating step — stream closed, actuator
    /// fault, or malformed frame — ends its actuator requests with `Reset`,
    /// so the sink observes a reset before the session completes, however
    /// the session ends.
    ///
    /// Correlation integrity: the report answering a target carries exactly
    /// the `sync` token of the frame that produced it, with the
    /// post-arbitration motion values.
    pub fn step(&mut self, event: &SessionEvent) -> (out: StepOutput)
        requires
            old(self).active,
        ensures
            out.done is Some ==> out.ops@.len() > 0 && out.ops@.last() == ActuatorOp::Reset,
            out.done is Some <==> !final(self).active,
            out.done is Some ==> final(self).motion.mode == Mode::Neutral,
            event is Closed ==> out.done == Some(Termination::StreamClosed),
            event is Fault ==> out.done == Some(Termination::ActuatorFault),
            event matches SessionEvent::Frame(b) ==> match spec_decode(b@) {
                None => out.done == Some(Termination::MalformedEnvelope),
                Some(env) => {
                    &&& out.done is None
                    &&& match env.payload {
                        Payload::Ack => {
                            &&& out.ops@ == Seq::<ActuatorOp>::empty()
                            &&& out.report is None
                            &&& !out.brake_edge
                            &&& final(self).motion == old(self).motion
                        },
                        Payload::Target { x, roll } => {
                            let xo = spec_arb_throttle(old(self).motion.mode, x as int);
                            &&& final(self).motion.mode == spec_next_mode(
                                old(self).motion.mode,
                                x as int,
                            )
                            &&& out.ops@.len() == 1
                            &&& out.ops@[0] matches ActuatorOp::Apply { steer_pulse, throttle_pulse }
                                && steer_pulse == roll && throttle_pulse as int == xo
                            &&& out.report matches Some(rep) && rep.sync == env.sync && (
                            rep.payload matches Payload::Target { x: rx, roll: rr } && rx as int
                                == xo && rr == roll)
                            &&& out.brake_edge == spec_brake_edge(old(self).motion.mode, x as int)
                        },
                    }
                },
            },
    {
        match event {
            SessionEvent::Closed => self.terminate(Termination::StreamClosed),
            SessionEvent::Fault => self.terminate(Termination::ActuatorFault),
            SessionEvent::Frame(b) => match decode(b) {
                Err(_) => self.terminate(Termination::MalformedEnvelope),
                Ok(env) => match env.payload {
                    Payload::Ack => StepOutput {
                        ops: Vec::new(),
                        report: None,
                        brake_edge: false,
                        done: None,
                    },
                    Payload::Target { x, roll } => {
                        let (cmd, edge) = self.motion.arbitrate(x, roll);
                        let mut ops: Vec<ActuatorOp> = Vec::new();
                        ops.push(
                            ActuatorOp::Apply {
                                steer_pulse: cmd.steer_pulse,
                                throttle_pulse: cmd.throttle_pulse,
                            },
                        );
                        StepOutput {
                            ops,
                            report: Some(
                                Envelope {
                                    sync: env.sync,
                                    payload: Payload::Target {
                                        x: cmd.throttle_pulse,
                                        roll: cmd.steer_pulse,
                                    },
                                },
                            ),
                            brake_edge: edge,
                            done: None,
                        }
                    },
                },
            },
        }
    }
}

} // verus!
