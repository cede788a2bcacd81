//! Dual-axis controller core.
//!
//! `Motors` owns the two motor axes and decides, once per control tick, what
//! the actuator must be told.  The surrounding platform layer runs the
//! periodic thread: each pass it samples the clock and both step counters,
//! calls `tick`, performs the returned command on the actuator driver, and
//! sleeps one control interval.  Target speeds and the finish flag live in
//! atomic cells owned by that layer; their values observed at a tick are
//! handed in through `set_target_speed_1`/`set_target_speed_2` and `finish`.
//! Shutdown is cooperative: after `finish` is requested, the next tick
//! commands zero power on both channels exactly once and the core goes
//! quiet.

use vstd::prelude::*;

use crate::motor::Motor;
use crate::motor::MotorModel;
use crate::motor::motor_power;
use crate::motor::motor_revs;
use crate::motor::updated_motor;

verus! {

/// What the control loop must do with the actuator on one tick.
#[derive(Clone, Copy, Debug, PartialEq, Eq, Structural)]
pub enum TickCommand {
    /// Drive both channels with these power levels.
    Drive { power_1: i64, power_2: i64 },
    /// The finish flag was observed: command zero power on both channels,
    /// then leave the loop.  Issued exactly once per shutdown.
    StopMotors,
    /// The controller has already stopped; nothing to do.
    Idle,
}

/// The two speed-controlled motor axes and the shutdown state machine.
pub struct Motors {
    /// First motor axis.
    pub motor_1: Motor,
    /// Second motor axis.
    pub motor_2: Motor,
    /// Target speed for motor 1, fixed-point revolutions per second, as
    /// last observed from the caller-facing atomic cell.
    pub target_speed_1: i64,
    /// Target speed for motor 2.
    pub target_speed_2: i64,
    /// Accumulated revolutions of motor 1, written after each update.
    pub revs_1: i64,
    /// Accumulated revolutions of motor 2.
    pub revs_2: i64,
    /// Shutdown request, as last observed from the finish flag.
    pub finish: bool,
    /// True once a tick has observed the finish flag and commanded the
    /// final zero power; all later ticks are idle.
    pub stopped: bool,
}

impl Motors {
    /// Both axes are well-formed.
    pub open spec fn wf(&self) -> bool {
        &&& self.motor_1@.wf()
        &&& self.motor_2@.wf()
    }

    /// Assemble the controller core around two freshly built axes.
    pub fn new(motor_1: Motor, motor_2: Motor) -> (m: Motors)
        requires
            motor_1@.wf(),
            motor_2@.wf(),
        ensures
            m.motor_1@ == motor_1@,
            m.motor_2@ == motor_2@,
            m.target_speed_1 == 0,
            m.target_speed_2 == 0,
            m.revs_1 == 0,
            m.revs_2 == 0,
            !m.finish,
            !m.stopped,
            m.wf(),
    {
        Motors {
            motor_1,
            motor_2,
            target_speed_1: 0,
            target_speed_2: 0,
            revs_1: 0,
            revs_2: 0,
            finish: false,
            stopped: false,
        }
    }

    /// Record the target speed (fixed-point revolutions per second) for the
    /// speed PID of motor 1; takes effect on the next tick.
    pub fn set_target_speed_1(&mut self, target_speed_1: i64)
        ensures
            *final(self) == (Motors { target_speed_1, ..*old(self) }),
    {
        self.target_speed_1 = target_speed_1;
    }

    /// Record the target speed for the speed PID of motor 2.
    pub fn set_target_speed_2(&mut self, target_speed_2: i64)
        ensures
            *final(self) == (Motors { target_speed_2, ..*old(self) }),
    {
        self.target_speed_2 = target_speed_2;
    }

    /// Total revolutions done by motor 1 as of the latest tick (fixed-point;
    /// decreases when the motor turns backwards).
    pub fn get_revs_1(&self) -> (r: i64)
        ensures
            r == self.revs_1,
    {
        self.revs_1
    }

    /// Total revolutions done by motor 2 as of the latest tick.
    pub fn get_revs_2(&self) -> (r: i64)
        ensures
            r == self.revs_2,
    {
        self.revs_2
    }

    /// Record a shutdown request: the next tick will command the final zero
    /// power.  Cancellation is cooperative, so the latency is bounded by one
    /// control interval.
    pub fn finish(&mut self)
        ensures
            *final(self) == (Motors { finish: true, ..*old(self) }),
    {
        self.finish = true;
    }

    /// One pass of the control loop at time `now_us`, with both step
    /// counters freshly sampled.  Updates both axes toward their target
    /// speeds and says what to command; once the finish flag has been
    /// observed, commands the final zero power exactly once and is idle
    /// ever after.
    pub fn tick(&mut self, now_us: u64, steps_1: i64, steps_2: i64) -> (cmd: TickCommand)
        requires
            old(self).wf(),
        ensures
            final(self).wf(),
            (cmd == TickCommand::StopMotors) == (!old(self).stopped && old(self).finish),
            final(self).stopped == (old(self).stopped || old(self).finish),
            old(self).stopped ==> cmd == TickCommand::Idle && *final(self) == *old(self),
            !old(self).stopped && old(self).finish ==> cmd == TickCommand::StopMotors
                && *final(self) == (Motors { stopped: true, ..*old(self) }),
            !old(self).stopped && !old(self).finish ==> {
                &&& cmd == (TickCommand::Drive {
                    power_1: motor_power(
                        old(self).motor_1@,
                        now_us as int,
                        steps_1 as int,
                        old(self).target_speed_1 as int,
                    ) as i64,
                    power_2: motor_power(
                        old(self).motor_2@,
                        now_us as int,
                        steps_2 as int,
                        old(self).target_speed_2 as int,
                    ) as i64,
                })
                &&& final(self).motor_1@ == updated_motor(
                    old(self).motor_1@,
                    now_us as int,
                    steps_1 as int,
                    old(self).target_speed_1 as int,
                )
                &&& final(self).motor_2@ == updated_motor(
                    old(self).motor_2@,
                    now_us as int,
                    steps_2 as int,
                    old(self).target_speed_2 as int,
                )
                &&& final(self).revs_1 == motor_revs(old(self).motor_1@, steps_1 as int) as i64
                &&& final(self).revs_2 == motor_revs(old(self).motor_2@, steps_2 as int) as i64
                &&& final(self).target_speed_1 == old(self).target_speed_1
                &&& final(self).target_speed_2 == old(self).target_speed_2
                &&& final(self).finish == old(self).finish
                &&& final(self).stopped == old(self).stopped
            },
    {
        if self.stopped {
            return TickCommand::Idle;
        }
        if self.finish {
            self.stopped = true;
            return TickCommand::StopMotors;
        }
        let (power_1, revs_1) = self.motor_1.update(now_us, steps_1, self.target_speed_1);
        let (power_2, revs_2) = self.motor_2.update(now_us, steps_2, self.target_speed_2);
        self.revs_1 = revs_1;
        self.revs_2 = revs_2;
        TickCommand::Drive { power_1, power_2 }
    }
}

/// Shutdown trace model: given whether the core had already stopped and the
/// finish-flag values that successive ticks observe, `emits_stop[k]` says
/// whether tick `k` issues the final zero-power command.
pub open spec fn emits_stop(stopped: bool, finishes: Seq<bool>) -> Seq<bool>
    decreases finishes.len(),
{
    if finishes.len() == 0 {
        Seq::empty()
    } else {
        seq![!stopped && finishes[0]] + emits_stop(stopped || finishes[0], finishes.drop_first())
    }
}

/// Number of `true` entries in a sequence of flags.
pub open spec fn count_true(s: Seq<bool>) -> int
    decreases s.len(),
{
    if s.len() == 0 {
        0
    } else {
        (if s[0] {
            1int
        } else {
            0int
        }) + count_true(s.drop_first())
    }
}

/// Whether any flag in the sequence is set.
pub open spec fn any_true(s: Seq<bool>) -> bool
    decreases s.len(),
{
    s.len() > 0 && (s[0] || any_true(s.drop_first()))
}

/// A shutdown commands zero power exactly once: over any run of ticks, the
/// final zero-power command is issued on exactly one tick if some tick
/// observes the finish flag (and on none otherwise), and only ever on a tick
/// that has observed it.  Combined with the platform joining the control
/// thread after requesting `finish`, this is the cross-thread ordering
/// guarantee of `stop`: the actuator is known to be at zero power, exactly
/// once, before the join returns.
pub proof fn lemma_single_stop_command(stopped: bool, finishes: Seq<bool>)
    ensures
        emits_stop(stopped, finishes).len() == finishes.len(),
        count_true(emits_stop(stopped, finishes)) == if !stopped && any_true(finishes) {
            1int
        } else {
            0int
        },
        forall|k: int|
            0 <= k < finishes.len() && #[trigger] emits_stop(stopped, finishes)[k]
                ==> finishes[k],
    decreases finishes.len(),
{
    if finishes.len() == 0 {
    } else {
        let head = finishes[0];
        let tail = finishes.drop_first();
        lemma_single_stop_command(stopped || head, tail);
        assert(emits_stop(stopped, finishes).drop_first() =~= emits_stop(stopped || head, tail));
        assert forall|k: int|
            0 <= k < finishes.len() && #[trigger] emits_stop(stopped, finishes)[k]
            implies finishes[k] by {
            if k > 0 {
                assert(emits_stop(stopped, finishes)[k] == emits_stop(stopped || head, tail)[k
                    - 1]);
                assert(finishes[k] == tail[k - 1]);
            }
        }
    }
}

} // verus!
