//! Duty-cycle arithmetic for the 50 Hz PWM outputs that drive hobby servos and BLDC controllers.
use vstd::prelude::*;

verus! {

/// Largest angle, in degrees, that a servo accepts; larger angles are clamped to it.
pub const SERVO_MAX_ANGLE: u16 = 180;

/// The angle actually commanded for a requested angle: requests above 180° are clamped.
pub open spec fn clamped_angle(angle: int) -> int {
    if angle > 180 { 180 } else { angle }
}

/// Duty value for a servo angle on a channel whose full-scale duty is `max_duty`.
///
/// The pulse runs from 0.5 ms (2.5 % of the 20 ms period) at 0° to 2.5 ms (12.5 %) at 180°,
/// so the duty fraction is `0.025 + angle / 180 * 0.1 = (45 + angle) / 1800`.
pub open spec fn servo_duty_spec(angle: int, max_duty: int) -> int {
    max_duty * (45 + clamped_angle(angle)) / 1800
}

/// Clamps a requested servo angle to at most 180°.
pub fn clamp_servo_angle(angle: u16) -> (r: u16)
    ensures
        r == clamped_angle(angle as int),
        angle <= 180 ==> r == angle,
        angle > 180 ==> r == 180,
{
    if angle > SERVO_MAX_ANGLE { SERVO_MAX_ANGLE } else { angle }
}

/// The duty value to write for a servo angle, rounded down.
pub fn servo_duty(angle: u16, max_duty: u32) -> (d: u32)
    ensures
        d == servo_duty_spec(angle as int, max_duty as int),
        angle <= 180 ==> d == max_duty * (45 + angle) / 1800,
        angle > 180 ==> d == max_duty * 225 / 1800,
{
    let a = clamp_servo_angle(angle) as u64;
    let m = max_duty as u64;
    proof {
        assert(m * (45 + a) <= m * 225) by (nonlinear_arith)
            requires a <= 180;
        assert(m * (45 + a) >= 0) by (nonlinear_arith);
    }
    let d = m * (45 + a) / 1800;
    d as u32
}

/// Largest power magnitude, in percent, that a BLDC controller accepts.
pub const BLDC_MAX_POWER: i16 = 100;

/// The power actually commanded for a requested power: clamped to -100 ..= 100.
pub open spec fn clamped_power(power: int) -> int {
    if power < -100 { -100 } else if power > 100 { 100 } else { power }
}

/// Duty value for a BLDC power level on a channel whose full-scale duty is `max_duty`.
///
/// The pulse is 1.5 ms (7.5 % of the period) at rest and moves by 0.1 % per percent of power,
/// from 2.5 % at -100 to 12.5 % at 100: `0.075 + power / 200 * 0.1 = (150 + power) / 2000`.
pub open spec fn bldc_duty_spec(power: int, max_duty: int) -> int {
    max_duty * (150 + clamped_power(power)) / 2000
}

/// Clamps a requested BLDC power to -100 ..= 100.
pub fn clamp_bldc_power(power: i16) -> (r: i16)
    ensures
        r == clamped_power(power as int),
        -100 <= power <= 100 ==> r == power,
        power < -100 ==> r == -100,
        power > 100 ==> r == 100,
{
    if power < -BLDC_MAX_POWER {
        -BLDC_MAX_POWER
    } else if power > BLDC_MAX_POWER {
        BLDC_MAX_POWER
    } else {
        power
    }
}

/// The duty value to write for a BLDC power level, rounded down.
pub fn bldc_duty(power: i16, max_duty: u32) -> (d: u32)
    ensures
        d == bldc_duty_spec(power as int, max_duty as int),
        -100 <= power <= 100 ==> d == max_duty * (150 + power) / 2000,
        power < -100 ==> d == max_duty * 50 / 2000,
        power > 100 ==> d == max_duty * 250 / 2000,
{
    let p = clamp_bldc_power(power);
    let offset = (150 + p) as u64;
    let m = max_duty as u64;
    proof {
        assert(m * offset <= m * 250) by (nonlinear_arith)
            requires offset <= 250;
        assert(m * offset >= 0) by (nonlinear_arith);
    }
    let d = m * offset / 2000;
    d as u32
}

/// A servo duty never leaves the 2.5 % ..= 12.5 % band of the channel's full scale.
pub proof fn lemma_servo_duty_in_band(angle: int, max_duty: int)
    requires
        0 <= angle,
        0 <= max_duty,
    ensures
        max_duty * 45 / 1800 <= servo_duty_spec(angle, max_duty) <= max_duty * 225 / 1800,
{
    let a = clamped_angle(angle);
    assert(max_duty * 45 <= max_duty * (45 + a) <= max_duty * 225) by (nonlinear_arith)
        requires 0 <= a <= 180, 0 <= max_duty;
    vstd::arithmetic::div_mod::lemma_div_is_ordered(max_duty * 45, max_duty * (45 + a), 1800);
    vstd::arithmetic::div_mod::lemma_div_is_ordered(max_duty * (45 + a), max_duty * 225, 1800);
}

/// A larger commanded angle never gives a smaller servo duty.
pub proof fn lemma_servo_duty_monotonic(a1: int, a2: int, max_duty: int)
    requires
        0 <= a1 <= a2,
        0 <= max_duty,
    ensures
        servo_duty_spec(a1, max_duty) <= servo_duty_spec(a2, max_duty),
{
    let c1 = clamped_angle(a1);
    let c2 = clamped_angle(a2);
    assert(max_duty * (45 + c1) <= max_duty * (45 + c2)) by (nonlinear_arith)
        requires c1 <= c2, 0 <= max_duty;
    vstd::arithmetic::div_mod::lemma_div_is_ordered(max_duty * (45 + c1), max_duty * (45 + c2), 1800);
}

/// Every angle from 180° up gives the same duty as 180°.
pub proof fn lemma_servo_duty_saturates(angle: int, max_duty: int)
    requires
        angle >= 180,
    ensures
        servo_duty_spec(angle, max_duty) == servo_duty_spec(180, max_duty),
{
}

/// A larger commanded power never gives a smaller BLDC duty, and powers beyond ±100 act as ±100.
pub proof fn lemma_bldc_duty_monotonic(p1: int, p2: int, max_duty: int)
    requires
        p1 <= p2,
        0 <= max_duty,
    ensures
        bldc_duty_spec(p1, max_duty) <= bldc_duty_spec(p2, max_duty),
        p1 <= -100 ==> bldc_duty_spec(p1, max_duty) == bldc_duty_spec(-100, max_duty),
        p2 >= 100 ==> bldc_duty_spec(p2, max_duty) == bldc_duty_spec(100, max_duty),
{
    let c1 = clamped_power(p1);
    let c2 = clamped_power(p2);
    assert(max_duty * (150 + c1) <= max_duty * (150 + c2)) by (nonlinear_arith)
        requires c1 <= c2, 0 <= max_duty;
    vstd::arithmetic::div_mod::lemma_div_is_ordered(max_duty * (150 + c1), max_duty * (150 + c2), 2000);
}

/// At zero power the BLDC duty is the 7.5 % neutral pulse, and it stays within 2.5 % ..= 12.5 %.
pub proof fn lemma_bldc_duty_neutral_and_band(power: int, max_duty: int)
    requires
        0 <= max_duty,
    ensures
        bldc_duty_spec(0, max_duty) == max_duty * 150 / 2000,
        max_duty * 50 / 2000 <= bldc_duty_spec(power, max_duty) <= max_duty * 250 / 2000,
{
    let c = clamped_power(power);
    assert(bldc_duty_spec(power, max_duty) == bldc_duty_spec(c, max_duty));
    lemma_bldc_duty_monotonic(-100, c, max_duty);
    lemma_bldc_duty_monotonic(c, 100, max_duty);
}

} // verus!
