//! Operator-side protocol engine.
//!
//! On a fixed cadence the surrounding loop samples the input device, hands
//! the two raw axis values here, and sends the envelope this engine builds;
//! between ticks it drains inbound frames through `on_frame`. Reading the
//! device and the floating-point axis scaling stay outside: this engine
//! takes raw integer samples and is verified from there on.

use vstd::prelude::*;

use crate::Termination;
use crate::arbiter::NEUTRAL_THRESHOLD;
use crate::codec::Envelope;
use crate::codec::Payload;
use crate::codec::decode;
use crate::codec::spec_decode;

verus! {

/// Width of the command range on each side of the neutral threshold: a
/// full axis deflection maps to the threshold plus or minus this much.
pub const HALF_RANGE: i32 = 50;

/// Magnitude of a raw axis sample: the device layer hands in integers in
/// `[-AXIS_SCALE, AXIS_SCALE]` standing for the real axis range.
pub const AXIS_SCALE: i32 = 255;

/// Cadence, in milliseconds, at which the controller sends a fresh target.
pub const TICK_MILLIS: u64 = 100;

/// The command value a raw axis sample maps to: the neutral threshold plus
/// the sample's proportional share of the half range, rounded down.
pub open spec fn spec_map_axis(raw: int) -> int {
    NEUTRAL_THRESHOLD + (HALF_RANGE * raw) / (AXIS_SCALE as int)
}

/// Maps one raw axis sample into the integer command range.
pub fn map_axis(raw: i32) -> (v: i32)
    requires
        -AXIS_SCALE <= raw <= AXIS_SCALE,
    ensures
        v as int == spec_map_axis(raw as int),
        NEUTRAL_THRESHOLD - HALF_RANGE <= v <= NEUTRAL_THRESHOLD + HALF_RANGE,
{
    let num = HALF_RANGE * raw;
    let q = if num >= 0 {
        num / AXIS_SCALE
    } else {
        let p = -num;
        let up = (p + (AXIS_SCALE - 1)) / AXIS_SCALE;
        proof {
            vstd::arithmetic::div_mod::lemma_fundamental_div_mod(
                p + (AXIS_SCALE - 1) as int,
                AXIS_SCALE as int,
            );
            let r0 = (p + (AXIS_SCALE - 1)) % (AXIS_SCALE as int);
            vstd::arithmetic::div_mod::lemma_fundamental_div_mod_converse(
                num as int,
                AXIS_SCALE as int,
                -(up as int),
                (AXIS_SCALE - 1) - r0,
            );
        }
        -up
    };
    proof {
        vstd::arithmetic::div_mod::lemma_fundamental_div_mod(num as int, AXIS_SCALE as int);
    }
    NEUTRAL_THRESHOLD + q
}

/// The operator-side session: holds the correlation token the next command
/// will carry. Tokens count up, one per sent command, so each report can be
/// matched to the command it answers.
pub struct Controller {
    pub next_sync: u64,
}

impl Controller {
    /// A fresh controller; its first command carries token 1.
    pub fn new() -> (c: Self)
        ensures
            c.next_sync == 1,
    {
        Controller { next_sync: 1 }
    }

    /// On the send tick: maps the sideways axis to steering and the
    /// lengthwise axis to throttle, and builds the target envelope carrying
    /// this tick's token.
    pub fn on_tick(&mut self, x_axis_raw: i32, y_axis_raw: i32) -> (e: Envelope)
        requires
            -AXIS_SCALE <= x_axis_raw <= AXIS_SCALE,
            -AXIS_SCALE <= y_axis_raw <= AXIS_SCALE,
            old(self).next_sync < u64::MAX,
        ensures
            e.sync == old(self).next_sync,
            final(self).next_sync == old(self).next_sync + 1,
            e.payload matches Payload::Target { x, roll } && x as int == spec_map_axis(
                y_axis_raw as int,
            ) && roll as int == spec_map_axis(x_axis_raw as int),
    {
        let sync = self.next_sync;
        self.next_sync = self.next_sync + 1;
        let x = map_axis(y_axis_raw);
        let roll = map_axis(x_axis_raw);
        Envelope { sync, payload: Payload::Target { x, roll } }
    }

    /// On an inbound frame: a motion report is answered with an
    /// acknowledgement echoing the report's token, an acknowledgement needs
    /// no reply, and a frame that does not decode ends the session — a
    /// corrupted command stream cannot be trusted to resume.
    pub fn on_frame(&self, frame: &Vec<u8>) -> (r: Result<Option<Envelope>, Termination>)
        ensures
            match r {
                Ok(reply) => spec_decode(frame@) matches Some(env) && match reply {
                    Some(ack) => env.payload is Target && ack == (Envelope {
                        sync: env.sync,
                        payload: Payload::Ack,
                    }),
                    None => env.payload is Ack,
                },
                Err(t) => t == Termination::MalformedEnvelope && spec_decode(frame@) is None,
            },
    {
        match decode(frame) {
            Err(_) => Err(Termination::MalformedEnvelope),
            Ok(env) => match env.payload {
                Payload::Target { .. } => Ok(
                    Some(Envelope { sync: env.sync, payload: Payload::Ack }),
                ),
                Payload::Ack => Ok(None),
            },
        }
    }
}

} // verus!
