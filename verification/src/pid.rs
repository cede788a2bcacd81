//! Discrete PID feedback law with bounded output.
//!
//! `compute` is called at an approximately fixed cadence by the control
//! loop; the integral gain is folded directly into the running accumulator,
//! so tuning is cadence-dependent by design.  All quantities are fixed-point
//! values in `SCALE` units; wide intermediates are saturated into `i64` at
//! each stored state, and the output is clamped into `[min, max]`.

use vstd::prelude::*;

use crate::fixed::SCALE;
use crate::fixed::clamp;
use crate::fixed::clamp_to_i64;
use crate::fixed::mul_scaled;
use crate::fixed::sat64;
use crate::fixed::saturate_to_i64;
use crate::fixed::scaled_mul;

verus! {

/// State of one PID controller.  Gains may carry either sign; their sign
/// encodes the feedback polarity.
pub struct Pid {
    /// Proportional gain, fixed-point.
    pub p: i64,
    /// Integral gain, fixed-point; folded into the accumulator once per call.
    pub i: i64,
    /// Derivative gain, fixed-point; applied to the one-step error change.
    pub d: i64,
    /// Lower output bound.
    pub min: i64,
    /// Upper output bound.
    pub max: i64,
    /// Running integral accumulator.
    pub i_accumulator: i64,
    /// True when the next `compute` must re-seed the previous error and zero
    /// the accumulator (after construction or `reset`).
    pub first_time: bool,
    /// Error seen by the previous `compute` call.
    pub previous_error: i64,
}

/// The error signal: setpoint minus measurement, saturated into `i64`.
pub open spec fn pid_error(value: int, target: int) -> int {
    sat64(target - value)
}

/// Previous error used by the derivative term: re-seeded with the current
/// error on a first call, so that the derivative contributes nothing then.
pub open spec fn seeded_previous_error(s: Pid, e: int) -> int {
    if s.first_time {
        e
    } else {
        s.previous_error as int
    }
}

/// Accumulator the call starts from: zeroed on a first call.
pub open spec fn seeded_accumulator(s: Pid) -> int {
    if s.first_time {
        0
    } else {
        s.i_accumulator as int
    }
}

/// Accumulator after folding in the integral gain times the current error.
pub open spec fn next_accumulator(s: Pid, e: int) -> int {
    sat64(seeded_accumulator(s) + scaled_mul(s.i as int, e))
}

/// Unclamped control output for error `e`: proportional term plus updated
/// accumulator plus derivative term on the one-step error change.
pub open spec fn raw_output(s: Pid, e: int) -> int {
    scaled_mul(s.p as int, e) + next_accumulator(s, e) + scaled_mul(
        s.d as int,
        sat64(e - seeded_previous_error(s, e)),
    )
}

/// Output of one `compute` call on state `s`: the raw output clamped into
/// `[min, max]`.
pub open spec fn compute_output(s: Pid, value: int, target: int) -> int {
    clamp(raw_output(s, pid_error(value, target)), s.min as int, s.max as int)
}

impl Pid {
    /// The output bounds must be ordered; every method keeps this.
    pub open spec fn wf(&self) -> bool {
        self.min <= self.max
    }

    /// Build a controller with the given gains and output bounds.
    pub fn new(p: i64, i: i64, d: i64, min: i64, max: i64) -> (c: Pid)
        requires
            min <= max,
        ensures
            c == (Pid {
                p,
                i,
                d,
                min,
                max,
                i_accumulator: 0,
                first_time: true,
                previous_error: 0,
            }),
            c.wf(),
    {
        Pid { p, i, d, min, max, i_accumulator: 0, first_time: true, previous_error: 0 }
    }

    /// One control step: fold the error into the accumulator, form the
    /// proportional, integral and derivative terms, clamp, and remember the
    /// error for the next call.
    pub fn compute(&mut self, value: i64, target_value: i64) -> (output: i64)
        requires
            old(self).wf(),
        ensures
            output == compute_output(*old(self), value as int, target_value as int),
            final(self).previous_error == pid_error(value as int, target_value as int),
            final(self).i_accumulator == next_accumulator(
                *old(self),
                pid_error(value as int, target_value as int),
            ),
            !final(self).first_time,
            final(self).p == old(self).p,
            final(self).i == old(self).i,
            final(self).d == old(self).d,
            final(self).min == old(self).min,
            final(self).max == old(self).max,
            final(self).wf(),
    {
        let error: i64 = saturate_to_i64((target_value as i128) - (value as i128));

        if self.first_time {
            self.previous_error = error;
            self.i_accumulator = 0;
            self.first_time = false;
        }

        let i_term: i128 = mul_scaled(self.i, error);
        let accumulator: i64 = saturate_to_i64((self.i_accumulator as i128) + i_term);
        self.i_accumulator = accumulator;

        let p_term: i128 = mul_scaled(self.p, error);
        let derivative_input: i64 = saturate_to_i64(
            (error as i128) - (self.previous_error as i128),
        );
        let d_term: i128 = mul_scaled(self.d, derivative_input);

        let raw: i128 = p_term + (accumulator as i128) + d_term;
        let output: i64 = clamp_to_i64(raw, self.min, self.max);

        self.previous_error = error;

        output
    }

    /// Request re-seeding: the next `compute` discards the accumulated
    /// integral and seeds the previous error with its own error, as after
    /// construction.  Used after re-homing or a large setpoint jump.
    pub fn reset(&mut self)
        ensures
            *final(self) == (Pid { first_time: true, ..*old(self) }),
    {
        self.first_time = true;
    }
}

/// With zero integral and derivative gains and an empty accumulator, one
/// `compute` step is exactly the clamped proportional law on the error
/// `setpoint - measured`, whatever the call history.
pub proof fn lemma_pure_proportional(s: Pid, value: int, target: int)
    requires
        s.i == 0,
        s.d == 0,
        s.i_accumulator == 0,
    ensures
        compute_output(s, value, target) == clamp(
            scaled_mul(s.p as int, pid_error(value, target)),
            s.min as int,
            s.max as int,
        ),
{
    let e = pid_error(value, target);
    vstd::arithmetic::div_mod::lemma_div_of0(SCALE as int);
    assert(scaled_mul(0, e) == 0);
    assert(scaled_mul(0, sat64(e - seeded_previous_error(s, e))) == 0);
    assert(next_accumulator(s, e) == 0);
}

/// On the first `compute` after construction or `reset`, the previous error
/// is seeded with the current error, so the derivative term contributes
/// nothing: the output does not depend on the derivative gain.
pub proof fn lemma_first_call_suppresses_derivative(s: Pid, value: int, target: int)
    requires
        s.first_time,
    ensures
        compute_output(s, value, target) == clamp(
            scaled_mul(s.p as int, pid_error(value, target)) + sat64(
                scaled_mul(s.i as int, pid_error(value, target)),
            ),
            s.min as int,
            s.max as int,
        ),
{
    let e = pid_error(value, target);
    vstd::arithmetic::div_mod::lemma_div_of0(SCALE as int);
    assert(sat64(e - seeded_previous_error(s, e)) == 0);
    assert((s.d as int) * 0 == 0);
    assert(scaled_mul(s.d as int, 0) == 0);
    assert(next_accumulator(s, e) == sat64(scaled_mul(s.i as int, e)));
}

} // verus!
