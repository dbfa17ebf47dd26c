//! A time-based scalar interpolator with an ease-out-quadratic curve.
//!
//! Values are plain integers (the views keep offsets in milli-pixels), the
//! clock is a millisecond timestamp supplied by the caller.  For normalized
//! time `u = t/d` the eased fraction is `u * (2 - u)`, so the value is
//! `start + (target - start) * t * (2d - t) / d^2`, computed exactly in
//! integer arithmetic with the magnitude rounded toward zero.

use vstd::prelude::*;

verus! {

/// Transition values must stay within this magnitude so the eased
/// interpolation can be computed without overflow.
pub const TRANSITION_VAL_MAX: i64 = 0x2000_0000_0000;

#[derive(Clone, Copy, Debug, PartialEq, Eq, Structural)]
pub enum TransitionState {
    Running,
    AtEnd,
}

/// An in-flight animation of one numeric property from `start_val` to
/// `target_val` over `duration` milliseconds, starting at `start_time`.
///
/// Once the elapsed time reaches the duration the state latches at
/// `AtEnd` and every later `step` returns the target exactly.
#[derive(Clone, Copy, Debug, PartialEq, Eq, Structural)]
pub struct Transition {
    pub start_time: u64,
    pub duration: u32,
    pub start_val: i64,
    pub target_val: i64,
    pub state: TransitionState,
}

impl Transition {
    pub open spec fn wf(self) -> bool {
        &&& -TRANSITION_VAL_MAX <= self.start_val <= TRANSITION_VAL_MAX
        &&& -TRANSITION_VAL_MAX <= self.target_val <= TRANSITION_VAL_MAX
    }

    /// Milliseconds since the start; a clock reading from before the start
    /// counts as zero elapsed time.
    pub open spec fn elapsed_at(self, now: u64) -> int {
        if now <= self.start_time {
            0
        } else {
            now - self.start_time
        }
    }

    /// The eased value at elapsed time `t` of a run from `b` to `tgt` over
    /// duration `d`, for `0 <= t < d`: the ease-out-quadratic interpolation,
    /// with the offset magnitude rounded toward zero.
    pub open spec fn eased_value(b: int, tgt: int, t: int, d: int) -> int {
        let c = if tgt >= b {
            tgt - b
        } else {
            b - tgt
        };
        let m = (c * t * (2 * d - t)) / (d * d);
        if tgt >= b {
            b + m
        } else {
            b - m
        }
    }

    /// What one `step` call observes and leaves behind: the stepped
    /// transition and the returned value.
    pub open spec fn step_model(self, now: u64) -> (Transition, i64) {
        if self.state is AtEnd {
            (self, self.target_val)
        } else if self.elapsed_at(now) >= self.duration {
            (Transition { state: TransitionState::AtEnd, ..self }, self.target_val)
        } else {
            (
                self,
                Transition::eased_value(
                    self.start_val as int,
                    self.target_val as int,
                    self.elapsed_at(now),
                    self.duration as int,
                ) as i64,
            )
        }
    }

    /// Begin a transition at the current time.
    pub fn new(start_val: i64, target_val: i64, duration: u32, now: u64) -> (r: Transition)
        requires
            -TRANSITION_VAL_MAX <= start_val <= TRANSITION_VAL_MAX,
            -TRANSITION_VAL_MAX <= target_val <= TRANSITION_VAL_MAX,
        ensures
            r == (Transition {
                start_time: now,
                duration,
                start_val,
                target_val,
                state: TransitionState::Running,
            }),
            r.wf(),
    {
        Transition { start_time: now, duration, start_val, target_val, state: TransitionState::Running }
    }

    /// Whether the transition has latched at its end state.
    pub fn at_end(&self) -> (r: bool)
        ensures
            r == (self.state is AtEnd),
    {
        match self.state {
            TransitionState::AtEnd => true,
            _ => false,
        }
    }

    /// The value the transition is heading to, available in any state.
    pub fn target_val(&self) -> (r: i64)
        ensures
            r == self.target_val,
    {
        self.target_val
    }

    /// Advance to the clock reading `now` and return the interpolated value.
    ///
    /// Past the duration the state latches at `AtEnd` and the target is
    /// returned exactly; at zero elapsed time the start value is returned
    /// exactly.
    pub fn step(&mut self, now: u64) -> (r: i64)
        requires
            old(self).wf(),
        ensures
            final(self).wf(),
            (*final(self), r) == old(self).step_model(now),
            old(self).start_val <= r <= old(self).target_val || old(self).target_val <= r <= old(
                self,
            ).start_val,
    {
        match self.state {
            TransitionState::AtEnd => {
                return self.target_val;
            },
            TransitionState::Running => {},
        }
        let t64: u64 = if now <= self.start_time {
            0
        } else {
            now - self.start_time
        };
        if t64 >= self.duration as u64 {
            self.state = TransitionState::AtEnd;
            return self.target_val;
        }
        let t: u128 = t64 as u128;
        let d: u128 = self.duration as u128;
        let c_abs: u128 = if self.target_val >= self.start_val {
            (self.target_val - self.start_val) as u128
        } else {
            (self.start_val - self.target_val) as u128
        };
        proof {
            lemma_ease_magnitude_bound(c_abs as int, t as int, d as int);
            assert(c_abs as int * (t as int) * (2 * (d as int) - t as int) < 0x1_0000_0000_0000_0000_0000_0000_0000)
                by (nonlinear_arith)
                requires
                    0 <= (c_abs as int) && (c_abs as int) <= 0x4000_0000_0000,
                    0 <= (t as int) && (t as int) < (d as int),
                    0 < (d as int) && (d as int) < 0x1_0000_0000,
            ;
            assert(0 < d as int * (d as int) < 0x1_0000_0000_0000_0000) by (nonlinear_arith)
                requires
                    0 < (d as int) && (d as int) < 0x1_0000_0000,
            ;
            assert(0 <= c_abs as int * (t as int) < 0x1_0000_0000_0000_0000_0000_0000)
                by (nonlinear_arith)
                requires
                    0 <= (c_abs as int) && (c_abs as int) <= 0x4000_0000_0000,
                    0 <= (t as int) && (t as int) < 0x1_0000_0000,
            ;
        }
        let m128: u128 = (c_abs * t * (2 * d - t)) / (d * d);
        let m: i64 = m128 as i64;
        if self.target_val >= self.start_val {
            self.start_val + m
        } else {
            self.start_val - m
        }
    }
}

/// For elapsed time strictly inside the duration, the eased offset never
/// exceeds the full distance `c`, so the interpolated value stays between
/// the start and the target.
proof fn lemma_ease_magnitude_bound(c: int, t: int, d: int)
    requires
        c >= 0,
        0 <= t < d,
    ensures
        0 <= (c * t * (2 * d - t)) / (d * d) <= c,
        c * t * (2 * d - t) <= c * (d * d),
{
    assert(c * t * (2 * d - t) <= c * (d * d) && c * t * (2 * d - t) >= 0) by (nonlinear_arith)
        requires
            c >= 0,
            0 <= t < d,
    ;
    assert(d * d > 0) by (nonlinear_arith)
        requires
            d > 0,
    ;
    vstd::arithmetic::div_mod::lemma_div_is_ordered(c * t * (2 * d - t), c * (d * d), d * d);
    vstd::arithmetic::div_mod::lemma_div_multiples_vanish(c, d * d);
    assert((c * (d * d)) / (d * d) == c) by {
        assert(c * (d * d) == (d * d) * c) by (nonlinear_arith);
    }
    vstd::arithmetic::div_mod::lemma_div_pos_is_pos(c * t * (2 * d - t), d * d);
}

/// Once a transition's elapsed time has reached its duration, stepping
/// returns exactly the target, the end state latches, and every later step
/// keeps returning the target whatever the clock then reads.
pub proof fn lemma_step_boundary_latched(tr: Transition, now1: u64, now2: u64)
    requires
        tr.elapsed_at(now1) >= tr.duration,
    ensures
        tr.step_model(now1).1 == tr.target_val,
        tr.step_model(now1).0.state is AtEnd,
        tr.step_model(now1).0.step_model(now2).1 == tr.target_val,
        tr.step_model(now1).0.step_model(now2).0.state is AtEnd,
{
}

/// At zero elapsed time a running transition reports exactly its start
/// value.
pub proof fn lemma_step_at_start(tr: Transition, now: u64)
    requires
        tr.state is Running,
        tr.elapsed_at(now) == 0,
        tr.duration > 0,
    ensures
        tr.step_model(now).1 == tr.start_val,
        tr.step_model(now).0.state is Running,
{
    let d = tr.duration as int;
    let b = tr.start_val as int;
    let tgt = tr.target_val as int;
    let c = if tgt >= b {
        tgt - b
    } else {
        b - tgt
    };
    assert(d * d > 0) by (nonlinear_arith)
        requires
            d > 0,
    ;
    assert(c * 0 * (2 * d - 0) == 0) by (nonlinear_arith);
    assert(0int / (d * d) == 0) by {
        vstd::arithmetic::div_mod::lemma_div_of0(d * d);
    }
}

} // verus!
