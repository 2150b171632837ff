//! Motion arbitration: the hysteresis state machine that turns raw throttle
//! targets into actuator pulses that are safe to apply while decelerating.

use vstd::prelude::*;

verus! {

/// Throttle targets below this value count as a request to slow down; a
/// target at or above it clears a braking episode.
pub const NEUTRAL_THRESHOLD: i32 = 390;

/// Lowest throttle pulse the arbiter hands to the actuator when a
/// deceleration request arrives outside a braking episode.
pub const LOW_CLAMP: i32 = 372;

/// Highest forward throttle pulse the arbiter ever hands to the actuator.
pub const HIGH_CLAMP: i32 = 395;

/// Motion mode of the vehicle: the hysteresis state that decides when the
/// brake edge may fire and when the low clamp applies.
#[derive(Clone, Copy, Debug, PartialEq, Eq, Structural)]
pub enum Mode {
    Neutral,
    Forward,
    Braking,
}

/// The only value ever handed to the actuator sink: one pulse per channel,
/// throttle already arbitrated, steering passed through unmodified.
#[derive(Clone, Copy, Debug, PartialEq, Eq, Structural)]
pub struct ActuatorCommand {
    pub steer_pulse: i32,
    pub throttle_pulse: i32,
}

/// The mode after one target `x` is arbitrated in mode `m`.
///
/// A sub-threshold target outside a braking episode ends forward motion:
/// from `Forward` it opens a braking episode, from `Neutral` it stays
/// neutral. While `Braking`, sub-threshold targets change nothing. A target
/// at the threshold closes a braking episode without granting `Forward`;
/// only a target strictly above the threshold does that.
pub open spec fn spec_next_mode(m: Mode, x: int) -> Mode {
    if x < NEUTRAL_THRESHOLD as int {
        if m is Braking {
            Mode::Braking
        } else if m is Forward {
            Mode::Braking
        } else {
            Mode::Neutral
        }
    } else if x > NEUTRAL_THRESHOLD as int {
        Mode::Forward
    } else {
        if m is Forward {
            Mode::Forward
        } else {
            Mode::Neutral
        }
    }
}

/// The throttle pulse that one target `x` arbitrated in mode `m` yields.
///
/// A sub-threshold target outside a braking episode is floored at
/// `LOW_CLAMP`; while `Braking` it passes through untouched. A target at or
/// above the threshold is capped at `HIGH_CLAMP`.
pub open spec fn spec_arb_throttle(m: Mode, x: int) -> int {
    if x < NEUTRAL_THRESHOLD as int {
        if m is Braking {
            x
        } else if x < LOW_CLAMP as int {
            LOW_CLAMP as int
        } else {
            x
        }
    } else {
        if x > HIGH_CLAMP as int {
            HIGH_CLAMP as int
        } else {
            x
        }
    }
}

/// Whether arbitrating `x` in mode `m` fires the brake edge: exactly the
/// first sub-threshold target of a forward episode.
pub open spec fn spec_brake_edge(m: Mode, x: int) -> bool {
    m is Forward && x < NEUTRAL_THRESHOLD as int
}

/// The private motion state of one vehicle session. It is never transmitted;
/// it only records which mode the target history has put the vehicle in.
pub struct MotionState {
    pub mode: Mode,
}

impl MotionState {
    /// A fresh session starts in `Neutral`.
    pub fn new() -> (s: Self)
        ensures
            s.mode == Mode::Neutral,
    {
        MotionState { mode: Mode::Neutral }
    }

    /// Arbitrates one received target: steps the mode, clamps the throttle,
    /// passes the steering value through, and reports whether the brake
    /// edge fired on this sample.
    pub fn arbitrate(&mut self, x: i32, roll: i32) -> (r: (ActuatorCommand, bool))
        ensures
            final(self).mode == spec_next_mode(old(self).mode, x as int),
            r.0.throttle_pulse as int == spec_arb_throttle(old(self).mode, x as int),
            r.0.steer_pulse == roll,
            r.1 == spec_brake_edge(old(self).mode, x as int),
    {
        let mode0 = self.mode;
        let mut out = x;
        let mut brake = false;
        if x < NEUTRAL_THRESHOLD && mode0 != Mode::Braking {
            if mode0 == Mode::Forward {
                brake = true;
                self.mode = Mode::Braking;
            } else {
                self.mode = Mode::Neutral;
            }
            if out < LOW_CLAMP {
                out = LOW_CLAMP;
            }
        }
        if x >= NEUTRAL_THRESHOLD {
            if x > NEUTRAL_THRESHOLD {
                self.mode = Mode::Forward;
            } else if self.mode != Mode::Forward {
                self.mode = Mode::Neutral;
            }
            if out > HIGH_CLAMP {
                out = HIGH_CLAMP;
            }
        }
        (ActuatorCommand { steer_pulse: roll, throttle_pulse: out }, brake)
    }
}

/// Clamp correctness: outside a braking episode the arbitrated throttle
/// always lies between the two clamps, values already in range pass through
/// unchanged, and out-of-range values land exactly on the clamp they broke.
/// (While `Braking`, sub-threshold targets pass through unclamped by
/// design, so that episode is left out here.)
pub proof fn lemma_clamp_correctness(m: Mode, x: int)
    requires
        m is Braking ==> x >= LOW_CLAMP as int,
    ensures
        LOW_CLAMP as int <= spec_arb_throttle(m, x) <= HIGH_CLAMP as int,
        LOW_CLAMP as int <= x <= HIGH_CLAMP as int ==> spec_arb_throttle(m, x) == x,
        x > HIGH_CLAMP as int ==> spec_arb_throttle(m, x) == HIGH_CLAMP as int,
        x < LOW_CLAMP as int ==> spec_arb_throttle(m, x) == LOW_CLAMP as int,
{
}

/// The mode a run of targets leaves behind, applied left to right.
pub open spec fn spec_mode_after(m: Mode, xs: Seq<int>) -> Mode
    decreases xs.len(),
{
    if xs.len() == 0 {
        m
    } else {
        spec_mode_after(spec_next_mode(m, xs[0]), xs.drop_first())
    }
}

proof fn lemma_braking_run(m: Mode, xs: Seq<int>)
    requires
        m is Braking,
        forall|j: int| 0 <= j < xs.len() ==> xs[j] < NEUTRAL_THRESHOLD as int,
    ensures
        spec_mode_after(m, xs) is Braking,
    decreases xs.len(),
{
    if xs.len() != 0 {
        lemma_braking_run(spec_next_mode(m, xs[0]), xs.drop_first());
    }
}

/// Single brake-edge: starting from `Forward`, a run of consecutive
/// sub-threshold targets fires the brake edge exactly once, on its first
/// sample, and on no later one.
pub proof fn lemma_single_brake_edge(m: Mode, xs: Seq<int>, i: int)
    requires
        m is Forward,
        forall|j: int| 0 <= j < xs.len() ==> xs[j] < NEUTRAL_THRESHOLD as int,
        0 <= i < xs.len(),
    ensures
        spec_brake_edge(spec_mode_after(m, xs.take(i)), xs[i]) <==> i == 0,
{
    if i == 0 {
        assert(xs.take(0) =~= Seq::<int>::empty());
    } else {
        let head = xs.take(i);
        assert(head[0] == xs[0]);
        assert(head.drop_first() =~= xs.subrange(1, i));
        assert(spec_next_mode(m, xs[0]) is Braking);
        lemma_braking_run(spec_next_mode(m, xs[0]), xs.subrange(1, i));
    }
}

/// Neutral-boundary inclusivity: a target exactly at the threshold always
/// clears `Braking`, and it never sets `Forward` — the mode is `Forward`
/// afterwards only if it already was.
pub proof fn lemma_neutral_boundary(m: Mode)
    ensures
        !(spec_next_mode(m, NEUTRAL_THRESHOLD as int) is Braking),
        spec_next_mode(m, NEUTRAL_THRESHOLD as int) is Forward <==> m is Forward,
{
}

} // verus!
