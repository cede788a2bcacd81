//! Conversions between control quantities and actuator-driver commands.
//!
//! The motor-driver board takes per-channel duty-cycle bytes in 0..=255 and
//! a direction, and LED channel levels as bytes.  The wire protocol itself
//! (command bytes, bus addressing) lives with the platform layer; this
//! module holds the numeric conversions, in particular the rule that a power
//! level is clamped to magnitude 1.0 *before* any unsigned conversion, so an
//! out-of-range command can never wrap around.

use vstd::prelude::*;

use crate::fixed::SCALE;
use crate::fixed::clamp;
use crate::fixed::lemma_trunc_div_bound;

verus! {

/// Largest duty-cycle byte: full power.
pub const PWM_MAX: u8 = 255;

/// First non-reserved I2C device address.
pub const ADDRESS_MIN: u8 = 0x03;

/// Last non-reserved I2C device address.
pub const ADDRESS_MAX: u8 = 0x77;

/// Magnitude of a power level.
pub open spec fn power_magnitude(power: int) -> int {
    if power < 0 {
        -power
    } else {
        power
    }
}

/// Duty-cycle byte commanded for a power level: the magnitude, clamped to
/// 1.0 before any unsigned conversion, mapped linearly onto 0..=255.
pub open spec fn duty_of_power(power: int) -> int {
    clamp(power_magnitude(power), 0, SCALE as int) * (PWM_MAX as int) / (SCALE as int)
}

/// Duty-cycle byte for an LED channel level: the level, clamped to the unit
/// interval, mapped linearly onto 0..=255.
pub open spec fn duty_of_level(level: int) -> int {
    clamp(level, 0, SCALE as int) * (PWM_MAX as int) / (SCALE as int)
}

/// Split a signed power level into the direction and the duty-cycle byte
/// for the motor driver.  Negative powers command reverse; the magnitude is
/// clamped into the unit interval first, so a power beyond full scale
/// saturates at the full duty cycle instead of wrapping.
pub fn power_to_duty(power: i64) -> (r: (bool, u8))
    ensures
        r.0 == (power < 0),
        r.1 == duty_of_power(power as int),
{
    let reverse: bool = power < 0;
    let clamped: i64 = if power > SCALE {
        SCALE
    } else if power < -SCALE {
        -SCALE
    } else {
        power
    };
    let magnitude: i64 = if clamped < 0 {
        -clamped
    } else {
        clamped
    };
    proof {
        lemma_trunc_div_bound(
            (magnitude as int) * (PWM_MAX as int),
            SCALE as int,
            PWM_MAX as int,
        );
    }
    let duty: u64 = (magnitude as u64) * (PWM_MAX as u64) / (SCALE as u64);
    (reverse, duty as u8)
}

/// Duty-cycle byte for an LED channel level, clamped into the unit interval
/// before the unsigned conversion.
pub fn level_to_duty(level: i64) -> (r: u8)
    ensures
        r == duty_of_level(level as int),
{
    let clamped: i64 = if level > SCALE {
        SCALE
    } else if level < 0 {
        0
    } else {
        level
    };
    proof {
        lemma_trunc_div_bound((clamped as int) * (PWM_MAX as int), SCALE as int, PWM_MAX as int);
    }
    let duty: u64 = (clamped as u64) * (PWM_MAX as u64) / (SCALE as u64);
    duty as u8
}

/// Whether an I2C address may be assigned to the driver board: addresses
/// below `ADDRESS_MIN` and above `ADDRESS_MAX` are reserved by the bus.
/// An attempt to reassign to a reserved address is a configuration error:
/// the operation is abandoned and the prior address kept.
pub fn address_is_valid(address: u8) -> (r: bool)
    ensures
        r == (ADDRESS_MIN <= address <= ADDRESS_MAX),
{
    ADDRESS_MIN <= address && address <= ADDRESS_MAX
}

} // verus!
