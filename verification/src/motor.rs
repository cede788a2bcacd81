//! One speed-controlled motor axis.
//!
//! A `Motor` couples a PID controller with a smoothing filter over the last
//! few step-deltas of its quadrature encoder.  Once per control tick the
//! owner samples the shared step counter and the monotonic clock and calls
//! `update`, which low-pass-filters the step-deltas, estimates the axis
//! speed in revolutions per second, and runs one PID step toward the target
//! speed.  The encoder counter itself lives behind the platform's edge
//! callback; `update` receives its sampled value as an argument.

use vstd::prelude::*;

use crate::fixed::SCALE;
use crate::fixed::div_trunc;
use crate::fixed::lemma_mul_abs_bound;
use crate::fixed::lemma_trunc_div_bound;
use crate::fixed::sat64;
use crate::fixed::saturate_to_i64;
use crate::fixed::trunc_div;
use crate::pid::Pid;
use crate::pid::compute_output;
use crate::pid::next_accumulator;
use crate::pid::pid_error;

verus! {

/// Number of step-delta samples that the smoothing filter averages.
pub const STEPS_CHANGED_BUFFER_SIZE: usize = 5;

/// Largest accepted calibration value for steps per revolution (fixed-point,
/// so one million times the physical step count); keeps every intermediate
/// product inside `i128`.
pub const STEPS_PER_REVOLUTION_LIMIT: i64 = 1_000_000_000_000;

/// Mathematical state of one motor axis.
#[verifier::ext_equal]
pub ghost struct MotorModel {
    /// Speed PID for this axis.
    pub pid: Pid,
    /// Step count sampled by the previous `update`.
    pub prev_steps: int,
    /// Monotonic timestamp (microseconds) of the previous `update`.
    pub prev_time: int,
    /// Circular buffer of the last step-deltas, oldest overwritten first.
    pub buffer: Seq<int>,
    /// Next buffer slot to overwrite.
    pub index: int,
    /// Power returned by the previous `update`, reused when no time has
    /// passed between samples.
    pub prev_power: int,
    /// Calibration constant: encoder steps per driven revolution,
    /// fixed-point.
    pub steps_per_revolution: int,
}

impl MotorModel {
    /// Shape and range facts that every reachable motor state obeys.
    pub open spec fn wf(&self) -> bool {
        &&& self.buffer.len() == STEPS_CHANGED_BUFFER_SIZE
        &&& 0 <= self.index < STEPS_CHANGED_BUFFER_SIZE
        &&& forall|j: int|
            0 <= j < self.buffer.len() ==> i64::MIN <= #[trigger] self.buffer[j] <= i64::MAX
        &&& self.pid.wf()
        &&& i64::MIN <= self.prev_steps <= i64::MAX
        &&& 0 <= self.prev_time <= u64::MAX
        &&& i64::MIN <= self.prev_power <= i64::MAX
        &&& 1 <= self.steps_per_revolution <= STEPS_PER_REVOLUTION_LIMIT
    }
}

/// Step-delta measured by an update that samples `steps`.
pub open spec fn step_delta(m: MotorModel, steps: int) -> int {
    sat64(steps - m.prev_steps)
}

/// Smoothing buffer after that delta overwrites the oldest slot.
pub open spec fn updated_buffer(m: MotorModel, steps: int) -> Seq<int> {
    m.buffer.update(m.index, step_delta(m, steps))
}

/// Write index after one update: advances and wraps to the front.
pub open spec fn next_index(i: int) -> int {
    if i + 1 == STEPS_CHANGED_BUFFER_SIZE {
        0
    } else {
        i + 1
    }
}

/// Sum of the first `n` entries of a sequence.
pub open spec fn seq_sum_prefix(s: Seq<int>, n: int) -> int
    decreases n,
{
    if n <= 0 {
        0
    } else {
        seq_sum_prefix(s, n - 1) + s[n - 1]
    }
}

/// Sum of all entries of a sequence.
pub open spec fn seq_sum(s: Seq<int>) -> int {
    seq_sum_prefix(s, s.len() as int)
}

/// Arithmetic mean of the buffer, in fixed-point units of steps: the sum is
/// scaled up before the truncating division, so a constant buffer averages
/// exactly to its value.
pub open spec fn mean_scaled(s: Seq<int>) -> int {
    trunc_div(seq_sum(s) * SCALE, STEPS_CHANGED_BUFFER_SIZE as int)
}

/// Speed estimate of an update at time `now_us` sampling `steps`, in
/// fixed-point revolutions per second: the mean step-delta over the elapsed
/// time, divided by the steps-per-revolution calibration.
pub open spec fn motor_speed(m: MotorModel, now_us: int, steps: int) -> int {
    sat64(
        trunc_div(
            mean_scaled(updated_buffer(m, steps)) * SCALE * SCALE,
            (now_us - m.prev_time) * m.steps_per_revolution,
        ),
    )
}

/// Power returned by an update: one PID step toward the target on the fresh
/// speed estimate, or the previous power again when no time has elapsed
/// (sampling twice at one instant must not divide by zero).
pub open spec fn motor_power(m: MotorModel, now_us: int, steps: int, target: int) -> int {
    if now_us <= m.prev_time {
        m.prev_power
    } else {
        compute_output(m.pid, motor_speed(m, now_us, steps), target)
    }
}

/// Accumulated revolutions at step count `steps`, fixed-point.
pub open spec fn motor_revs(m: MotorModel, steps: int) -> int {
    sat64(trunc_div(steps * SCALE * SCALE, m.steps_per_revolution))
}

/// Motor state after one update; unchanged when no time has elapsed.
pub open spec fn updated_motor(m: MotorModel, now_us: int, steps: int, target: int) -> MotorModel {
    if now_us <= m.prev_time {
        m
    } else {
        let e = pid_error(motor_speed(m, now_us, steps), target);
        MotorModel {
            pid: Pid {
                i_accumulator: next_accumulator(m.pid, e) as i64,
                first_time: false,
                previous_error: e as i64,
                ..m.pid
            },
            prev_steps: steps,
            prev_time: now_us,
            buffer: updated_buffer(m, steps),
            index: next_index(m.index),
            prev_power: motor_power(m, now_us, steps, target),
            steps_per_revolution: m.steps_per_revolution,
        }
    }
}

/// One speed-controlled motor axis.
pub struct Motor {
    pid: Pid,
    prev_steps: i64,
    prev_time: u64,
    steps_changed_buffer: Vec<i64>,
    steps_changed_buffer_index: usize,
    prev_power: i64,
    steps_per_revolution: i64,
}

impl View for Motor {
    type V = MotorModel;

    closed spec fn view(&self) -> MotorModel {
        MotorModel {
            pid: self.pid,
            prev_steps: self.prev_steps as int,
            prev_time: self.prev_time as int,
            buffer: self.steps_changed_buffer@.map_values(|x: i64| x as int),
            index: self.steps_changed_buffer_index as int,
            prev_power: self.prev_power as int,
            steps_per_revolution: self.steps_per_revolution as int,
        }
    }
}

impl Motor {
    /// Build an axis around its speed PID and calibration constant; the
    /// smoothing buffer starts zeroed and the given time is the first
    /// sampling baseline.
    pub fn new(pid: Pid, steps_per_revolution: i64, start_time_us: u64) -> (m: Motor)
        requires
            pid.wf(),
            1 <= steps_per_revolution <= STEPS_PER_REVOLUTION_LIMIT,
        ensures
            m@ == (MotorModel {
                pid,
                prev_steps: 0,
                prev_time: start_time_us as int,
                buffer: seq![0int, 0int, 0int, 0int, 0int],
                index: 0,
                prev_power: 0,
                steps_per_revolution: steps_per_revolution as int,
            }),
            m@.wf(),
    {
        let mut buffer: Vec<i64> = Vec::new();
        buffer.push(0);
        buffer.push(0);
        buffer.push(0);
        buffer.push(0);
        buffer.push(0);
        let m = Motor {
            pid,
            prev_steps: 0,
            prev_time: start_time_us,
            steps_changed_buffer: buffer,
            steps_changed_buffer_index: 0,
            prev_power: 0,
            steps_per_revolution,
        };
        proof {
            assert(m@.buffer =~= seq![0int, 0int, 0int, 0int, 0int]);
            assert(m@ =~= (MotorModel {
                pid,
                prev_steps: 0,
                prev_time: start_time_us as int,
                buffer: seq![0int, 0int, 0int, 0int, 0int],
                index: 0,
                prev_power: 0,
                steps_per_revolution: steps_per_revolution as int,
            }));
        }
        m
    }

    /// One control tick: record the step-delta since the previous sample,
    /// average the buffer, estimate the speed over the elapsed time, and run
    /// one PID step toward `target_speed`.  Returns the power to command and
    /// the accumulated revolutions.  When no time has elapsed the sample is
    /// skipped and the previous power is returned unchanged.
    pub fn update(&mut self, now_us: u64, steps: i64, target_speed: i64) -> (r: (i64, i64))
        requires
            old(self)@.wf(),
        ensures
            final(self)@ == updated_motor(
                old(self)@,
                now_us as int,
                steps as int,
                target_speed as int,
            ),
            final(self)@.wf(),
            r.0 == motor_power(old(self)@, now_us as int, steps as int, target_speed as int),
            r.1 == motor_revs(old(self)@, steps as int),
    {
        let revs_scaled: i128 = (steps as i128) * (SCALE as i128) * (SCALE as i128);
        let revs_quotient: i128 = div_trunc(revs_scaled, self.steps_per_revolution as i128);
        let revs: i64 = saturate_to_i64(revs_quotient);

        if now_us <= self.prev_time {
            return (self.prev_power, revs);
        }
        let elapsed: u64 = now_us - self.prev_time;

        let delta: i64 = saturate_to_i64((steps as i128) - (self.prev_steps as i128));
        let slot: usize = self.steps_changed_buffer_index;
        self.steps_changed_buffer[slot] = delta;
        self.steps_changed_buffer_index = if slot + 1 == STEPS_CHANGED_BUFFER_SIZE {
            0
        } else {
            slot + 1
        };
        proof {
            assert(self@.buffer =~= updated_buffer(old(self)@, steps as int));
        }

        let ghost filled = updated_buffer(old(self)@, steps as int);
        let mut sum: i128 = 0;
        let mut k: usize = 0;
        while k < STEPS_CHANGED_BUFFER_SIZE
            invariant
                0 <= k <= STEPS_CHANGED_BUFFER_SIZE,
                self@.buffer =~= filled,
                self.steps_changed_buffer@.len() == STEPS_CHANGED_BUFFER_SIZE,
                forall|j: int|
                    0 <= j < filled.len() ==> i64::MIN <= #[trigger] filled[j] <= i64::MAX,
                filled.len() == STEPS_CHANGED_BUFFER_SIZE,
                sum == seq_sum_prefix(filled, k as int),
                -(k as int) * (i64::MAX as int + 1) <= sum <= (k as int) * (i64::MAX as int + 1),
            decreases STEPS_CHANGED_BUFFER_SIZE - k,
        {
            let entry: i64 = self.steps_changed_buffer[k];
            proof {
                assert(filled[k as int] == entry as int);
            }
            sum = sum + (entry as i128);
            k = k + 1;
        }
        assert(sum == seq_sum(filled));

        proof {
            lemma_trunc_div_bound(
                sum * (SCALE as int),
                STEPS_CHANGED_BUFFER_SIZE as int,
                0x8000_0000_0000_0000int * 1_000_000int,
            );
        }
        let mean: i128 = div_trunc(sum * (SCALE as i128), STEPS_CHANGED_BUFFER_SIZE as i128);

        proof {
            lemma_mul_abs_bound(
                elapsed as int,
                self.steps_per_revolution as int,
                u64::MAX as int,
                STEPS_PER_REVOLUTION_LIMIT as int,
            );
            assert(1 <= (elapsed as int) * (self.steps_per_revolution as int))
                by (nonlinear_arith)
                requires
                    1 <= elapsed as int,
                    1 <= self.steps_per_revolution as int,
            ;
        }
        let denominator: i128 = (elapsed as i128) * (self.steps_per_revolution as i128);
        let speed_scaled: i128 = mean * (SCALE as i128) * (SCALE as i128);
        let speed_quotient: i128 = div_trunc(speed_scaled, denominator);
        let speed: i64 = saturate_to_i64(speed_quotient);

        let power: i64 = self.pid.compute(speed, target_speed);

        self.prev_time = now_us;
        self.prev_steps = steps;
        self.prev_power = power;

        proof {
            assert(self@ =~= updated_motor(
                old(self)@,
                now_us as int,
                steps as int,
                target_speed as int,
            ));
        }
        (power, revs)
    }

}

/// Smoothing state after `n` consecutive updates that each measure the same
/// step-delta `d`: the buffer-and-index pair that `updated_buffer` and
/// `next_index` reach.
pub open spec fn constant_fill(buf: Seq<int>, index: int, d: int, n: nat) -> (Seq<int>, int)
    decreases n,
{
    if n == 0 {
        (buf, index)
    } else {
        constant_fill(buf.update(index, d), next_index(index), d, (n - 1) as nat)
    }
}

/// After at least a full buffer of constant-delta updates, every slot holds
/// that delta, whatever the buffer held before.
pub proof fn lemma_constant_fill_covers(buf: Seq<int>, index: int, d: int, n: nat)
    requires
        buf.len() == STEPS_CHANGED_BUFFER_SIZE,
        0 <= index < STEPS_CHANGED_BUFFER_SIZE,
        n >= STEPS_CHANGED_BUFFER_SIZE,
    ensures
        constant_fill(buf, index, d, n).0 == Seq::new(STEPS_CHANGED_BUFFER_SIZE as nat, |j: int| d),
    decreases n,
{
    if n == STEPS_CHANGED_BUFFER_SIZE {
        let s1 = buf.update(index, d);
        let i1 = next_index(index);
        let s2 = s1.update(i1, d);
        let i2 = next_index(i1);
        let s3 = s2.update(i2, d);
        let i3 = next_index(i2);
        let s4 = s3.update(i3, d);
        let i4 = next_index(i3);
        let s5 = s4.update(i4, d);
        let i5 = next_index(i4);
        assert(constant_fill(buf, index, d, n) == constant_fill(s1, i1, d, 4));
        assert(constant_fill(s1, i1, d, 4) == constant_fill(s2, i2, d, 3));
        assert(constant_fill(s2, i2, d, 3) == constant_fill(s3, i3, d, 2));
        assert(constant_fill(s3, i3, d, 2) == constant_fill(s4, i4, d, 1));
        assert(constant_fill(s4, i4, d, 1) == constant_fill(s5, i5, d, 0));
        assert(constant_fill(s5, i5, d, 0) == (s5, i5));
        assert(s5 =~= Seq::new(STEPS_CHANGED_BUFFER_SIZE as nat, |j: int| d));
    } else {
        lemma_constant_fill_covers(buf.update(index, d), next_index(index), d, (n - 1) as nat);
    }
}

/// The sum of a constant prefix is the constant times the prefix length.
pub proof fn lemma_seq_sum_constant(s: Seq<int>, d: int, n: int)
    requires
        forall|j: int| 0 <= j < s.len() ==> #[trigger] s[j] == d,
        0 <= n <= s.len(),
    ensures
        seq_sum_prefix(s, n) == n * d,
    decreases n,
{
    if n > 0 {
        lemma_seq_sum_constant(s, d, n - 1);
        assert(s[n - 1] == d);
        assert(seq_sum_prefix(s, n) == seq_sum_prefix(s, n - 1) + s[n - 1]);
        assert((n - 1) * d + d == n * d) by (nonlinear_arith);
    } else {
        assert(n * d == 0) by (nonlinear_arith)
            requires
                n == 0,
        ;
    }
}

/// The smoothing mean of an all-`d` buffer is exactly `d` (in fixed-point
/// units): the rescaled sum is an exact multiple of the buffer length.
pub proof fn lemma_constant_mean(s: Seq<int>, d: int)
    requires
        s.len() == STEPS_CHANGED_BUFFER_SIZE,
        forall|j: int| 0 <= j < s.len() ==> #[trigger] s[j] == d,
    ensures
        mean_scaled(s) == d * SCALE,
{
    lemma_seq_sum_constant(s, d, STEPS_CHANGED_BUFFER_SIZE as int);
    assert(seq_sum(s) == STEPS_CHANGED_BUFFER_SIZE * d);
    assert((STEPS_CHANGED_BUFFER_SIZE * d) * SCALE == STEPS_CHANGED_BUFFER_SIZE as int * (d
        * SCALE)) by (nonlinear_arith);
    crate::fixed::lemma_trunc_div_exact(d * SCALE, STEPS_CHANGED_BUFFER_SIZE as int);
}

/// Feeding an axis a constant step-delta `d` every tick for at least a full
/// buffer drives the smoothing mean to exactly `d` and the speed estimate to
/// `d` over the elapsed seconds and the steps-per-revolution calibration,
/// independently of what the buffer held before.
pub proof fn lemma_constant_delta_convergence(
    buf: Seq<int>,
    index: int,
    d: int,
    n: nat,
    elapsed_us: int,
    steps_per_revolution: int,
)
    requires
        buf.len() == STEPS_CHANGED_BUFFER_SIZE,
        0 <= index < STEPS_CHANGED_BUFFER_SIZE,
        n >= STEPS_CHANGED_BUFFER_SIZE,
        1 <= elapsed_us,
        1 <= steps_per_revolution,
    ensures
        mean_scaled(constant_fill(buf, index, d, n).0) == d * SCALE,
        sat64(
            trunc_div(
                mean_scaled(constant_fill(buf, index, d, n).0) * SCALE * SCALE,
                elapsed_us * steps_per_revolution,
            ),
        ) == sat64(trunc_div(d * SCALE * SCALE * SCALE, elapsed_us * steps_per_revolution)),
{
    lemma_constant_fill_covers(buf, index, d, n);
    let filled = constant_fill(buf, index, d, n).0;
    assert forall|j: int| 0 <= j < filled.len() implies #[trigger] filled[j] == d by {
    }
    lemma_constant_mean(filled, d);
}

} // verus!
