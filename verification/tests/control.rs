//! Behavioural tests for the motion-control core, on concrete fixed-point
//! values (`1_000_000` units stand for 1.0).

use rotator_core::Encoder;
use rotator_core::Motor;
use rotator_core::Motors;
use rotator_core::Pid;
use rotator_core::TickCommand;
use rotator_core::actuator::address_is_valid;
use rotator_core::actuator::level_to_duty;
use rotator_core::actuator::power_to_duty;

const UNIT: i64 = 1_000_000;

#[test]
fn pid_proportional_example_clamps() {
    // p = 2.0, i = 0, d = 0, bounds [0, 1]; measured 1.0, setpoint 4.0:
    // error 3.0, raw output 6.0, clamped to 1.0.
    let mut pid = Pid::new(2 * UNIT, 0, 0, 0, UNIT);
    let out: i64 = pid.compute(UNIT, 4 * UNIT);
    assert_eq!(out, UNIT);
}

#[test]
fn pid_pure_proportional_inside_bounds() {
    // With i = 0 and d = 0 the output is exactly p * (setpoint - measured)
    // whenever that lies inside the bounds.
    let mut pid = Pid::new(2 * UNIT, 0, 0, -10 * UNIT, 10 * UNIT);
    assert_eq!(pid.compute(UNIT, 4 * UNIT), 6 * UNIT);
    assert_eq!(pid.compute(4 * UNIT, UNIT), -6 * UNIT);
    assert_eq!(pid.compute(0, 0), 0);
}

#[test]
fn pid_derivative_suppressed_after_reset() {
    // Pure-D controller: the derivative term contributes 0 on the first
    // call and after every reset, whatever happened before.
    let bound: i64 = 1_000_000_000_000;
    let mut pid = Pid::new(0, 0, UNIT, -bound, bound);
    // First call: previous error is seeded with the current error.
    assert_eq!(pid.compute(0, UNIT), 0);
    // Error moves from 1.0 to 3.0: derivative term is 2.0.
    assert_eq!(pid.compute(0, 3 * UNIT), 2 * UNIT);
    // After reset the derivative is suppressed again, despite the history.
    pid.reset();
    assert_eq!(pid.compute(0, 5 * UNIT), 0);
}

#[test]
fn pid_integral_accumulates() {
    // Pure-I controller with gain 1.0: the accumulator adds the error on
    // every call, and survives between calls.
    let bound: i64 = 1_000_000_000_000;
    let mut pid = Pid::new(0, UNIT, 0, -bound, bound);
    assert_eq!(pid.compute(0, UNIT), UNIT);
    assert_eq!(pid.compute(0, UNIT), 2 * UNIT);
    assert_eq!(pid.compute(0, UNIT), 3 * UNIT);
    // Reset discards the accumulated integral.
    pid.reset();
    assert_eq!(pid.compute(0, UNIT), UNIT);
}

#[test]
fn encoder_counts_edges_by_channel_b_level() {
    // Ten rising edges with channel B high, then three with it low:
    // 10 - 3 = 7 steps.
    let mut enc = Encoder::new();
    for _ in 0..10 {
        enc.rising_edge(true);
    }
    assert_eq!(enc.steps(), 10);
    for _ in 0..3 {
        enc.rising_edge(false);
    }
    assert_eq!(enc.steps(), 7);
}

#[test]
fn encoder_tally_ignores_interleaving() {
    // The same numbers of high and low edges land on the same count in any
    // arrival order.
    let mut grouped = Encoder::new();
    for _ in 0..4 {
        grouped.rising_edge(true);
    }
    for _ in 0..2 {
        grouped.rising_edge(false);
    }
    let mut interleaved = Encoder::new();
    for _ in 0..2 {
        interleaved.rising_edge(false);
        interleaved.rising_edge(true);
        interleaved.rising_edge(true);
    }
    assert_eq!(grouped.steps(), interleaved.steps());
    assert_eq!(grouped.steps(), 2);
}

#[test]
fn encoder_seeds_baseline_position() {
    let mut enc = Encoder::new();
    enc.set_steps(42);
    enc.rising_edge(false);
    assert_eq!(enc.steps(), 41);
}

fn tracking_motor() -> Motor {
    // p = -1.0 and target 0 make the returned power equal the speed
    // estimate itself, so the smoothing behaviour is directly observable.
    let bound: i64 = 1_000_000_000_000;
    let pid = Pid::new(-UNIT, 0, 0, -bound, bound);
    // 1.0 steps per revolution, baseline time 0.
    Motor::new(pid, UNIT, 0)
}

#[test]
fn motor_constant_delta_converges_to_exact_mean() {
    // A constant step-delta of 2 per one-second tick: the smoothing mean
    // climbs 0.4, 0.8, ... and settles at exactly 2.0 revolutions per
    // second once the delta has filled the whole buffer.
    let mut motor = tracking_motor();
    let mut expected: Vec<i64> = Vec::new();
    expected.push(400_000);
    expected.push(800_000);
    expected.push(1_200_000);
    expected.push(1_600_000);
    expected.push(2_000_000);
    expected.push(2_000_000);
    expected.push(2_000_000);
    let mut steps: i64 = 0;
    for (k, want) in expected.iter().enumerate() {
        let now: u64 = (k as u64 + 1) * 1_000_000;
        steps += 2;
        let (power, _) = motor.update(now, steps, 0);
        assert_eq!(power, *want);
    }
}

#[test]
fn motor_reports_revolutions() {
    let mut motor = tracking_motor();
    // 10 steps at 1.0 steps per revolution: 10 revolutions.
    let (_, revs) = motor.update(1_000_000, 10, 0);
    assert_eq!(revs, 10 * UNIT);
}

#[test]
fn motor_skips_sample_when_no_time_elapsed() {
    let mut motor = tracking_motor();
    let (first, _) = motor.update(1_000_000, 2, 0);
    // Sampling again at the same instant reuses the previous power and
    // leaves the filter state alone.
    let (skipped, _) = motor.update(1_000_000, 50, 0);
    assert_eq!(skipped, first);
    // The next real tick behaves as if the skipped call never happened.
    let (second, _) = motor.update(2_000_000, 4, 0);
    assert_eq!(second, 800_000);
}

fn dual_controller() -> Motors {
    Motors::new(tracking_motor(), tracking_motor())
}

#[test]
fn controller_drives_both_axes() {
    let mut motors = dual_controller();
    let cmd = motors.tick(1_000_000, 2, 4);
    assert_eq!(cmd, TickCommand::Drive { power_1: 400_000, power_2: 800_000 });
    assert_eq!(motors.get_revs_1(), 2 * UNIT);
    assert_eq!(motors.get_revs_2(), 4 * UNIT);
}

#[test]
fn controller_target_speeds_take_effect_next_tick() {
    let mut motors = dual_controller();
    motors.set_target_speed_1(UNIT);
    motors.set_target_speed_2(-UNIT);
    // Zero measured speed: power is p * (target - 0) = -target.
    let cmd = motors.tick(1_000_000, 0, 0);
    assert_eq!(cmd, TickCommand::Drive { power_1: -UNIT, power_2: UNIT });
}

#[test]
fn controller_stop_commands_zero_power_exactly_once() {
    let mut motors = dual_controller();
    let mut stop_commands: u32 = 0;
    let mut trace = Vec::new();
    for k in 0..8u64 {
        if k == 3 {
            motors.finish();
        }
        let cmd = motors.tick((k + 1) * 1_000_000, 0, 0);
        if cmd == TickCommand::StopMotors {
            stop_commands += 1;
        }
        trace.push(cmd);
    }
    // Exactly one final zero-power command, on the first tick that observed
    // the finish flag; every later tick is idle.
    assert_eq!(stop_commands, 1);
    assert_eq!(trace[3], TickCommand::StopMotors);
    for k in 0..3 {
        assert!(matches!(trace[k], TickCommand::Drive { .. }));
    }
    for k in 4..8 {
        assert_eq!(trace[k], TickCommand::Idle);
    }
}

#[test]
fn duty_cycle_maps_power_linearly() {
    assert_eq!(power_to_duty(0), (false, 0));
    assert_eq!(power_to_duty(500_000), (false, 127));
    assert_eq!(power_to_duty(UNIT), (false, 255));
    assert_eq!(power_to_duty(-500_000), (true, 127));
    // Power exactly at the negative bound commands full reverse duty.
    assert_eq!(power_to_duty(-UNIT), (true, 255));
}

#[test]
fn duty_cycle_clamps_before_unsigned_conversion() {
    // Magnitudes over 1.0 saturate at full duty instead of wrapping.
    assert_eq!(power_to_duty(3 * UNIT), (false, 255));
    assert_eq!(power_to_duty(-3 * UNIT), (true, 255));
    assert_eq!(power_to_duty(i64::MIN), (true, 255));
    assert_eq!(power_to_duty(i64::MAX), (false, 255));
}

#[test]
fn led_levels_clamp_to_unit_interval() {
    assert_eq!(level_to_duty(0), 0);
    assert_eq!(level_to_duty(500_000), 127);
    assert_eq!(level_to_duty(UNIT), 255);
    assert_eq!(level_to_duty(-UNIT), 0);
    assert_eq!(level_to_duty(2 * UNIT), 255);
}

#[test]
fn reserved_bus_addresses_are_rejected() {
    assert!(!address_is_valid(0x00));
    assert!(!address_is_valid(0x02));
    assert!(address_is_valid(0x03));
    assert!(address_is_valid(0x19));
    assert!(address_is_valid(0x77));
    assert!(!address_is_valid(0x78));
    assert!(!address_is_valid(0xff));
}
