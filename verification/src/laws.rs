//! Properties that hold across the operations of the units, rows and boards.
use vstd::prelude::*;
use crate::bank::{after_requests, all_attached, all_detached, servo_writes, detach_writes};
use crate::bldc::bldc_write;
use crate::legs::legs_writes;
use crate::output::{
    DriverError, OutputState, fresh, attached, detached, after_setup, released, driving,
};
use crate::pwm::{servo_duty_spec, bldc_duty_spec, clamped_angle, clamped_power};
use crate::output::setup_outcome;
use vstd::arithmetic::div_mod::lemma_fundamental_div_mod;
use crate::servo::servo_write;

verus! {

/// A unit that was never set up writes nothing, whatever it is told.
pub proof fn lemma_fresh_unit_is_still(angle: int, power: int)
    ensures
        servo_write(fresh(), angle) is None,
        bldc_write(fresh(), power) is None,
{
}

/// A detached unit writes nothing, whatever it is told.
pub proof fn lemma_detached_unit_is_still(s: OutputState, angle: int, power: int)
    ensures
        servo_write(detached(s), angle) is None,
        bldc_write(detached(s), power) is None,
{
}

/// A successful setup installs the new channel and leaves the unit detached, so it writes
/// nothing until it is attached; a failed setup leaves it without a channel.
pub proof fn lemma_setup_starts_detached(s: OutputState, max_duty: u32, e: DriverError, angle: int, power: int)
    ensures
        after_setup(s, Ok(max_duty)) == (OutputState { channel: Some(max_duty), attached: false }),
        servo_write(after_setup(s, Ok(max_duty)), angle) is None,
        bldc_write(after_setup(s, Ok(max_duty)), power) is None,
        after_setup(s, Err(e)) == released(s),
        servo_write(after_setup(s, Err(e)), angle) is None,
        bldc_write(after_setup(s, Err(e)), power) is None,
{
}

/// An attached unit with a channel writes the duty of the (clamped) value it is told.
pub proof fn lemma_attached_unit_follows(s: OutputState, max_duty: u32, angle: int, power: int)
    requires
        s.channel == Some(max_duty),
    ensures
        servo_write(attached(s), angle) == Some(servo_duty_spec(angle, max_duty as int) as u32),
        bldc_write(attached(s), power) == Some(bldc_duty_spec(power, max_duty as int) as u32),
{
}

/// Attaching twice is attaching once, and so is detaching twice; detaching after attaching
/// a unit with a channel leaves it detached.
pub proof fn lemma_attach_detach_idempotent(s: OutputState)
    ensures
        attached(attached(s)) == attached(s),
        detached(detached(s)) == detached(s),
        s.channel is Some ==> detached(attached(s)) == detached(s),
        driving(detached(attached(s))) is None,
{
}

/// Once a detach request has been served in a control cycle (whether or not an attach request
/// came with it), no unit of the board writes anything for the next command.
pub proof fn lemma_detach_request_stills_board(
    s: Seq<OutputState>,
    attach: bool,
    angles: Seq<u16>,
    powers: Seq<i16>,
)
    ensures
        forall|i: int|
            0 <= i < s.len() ==> #[trigger] servo_writes(after_requests(s, attach, true), angles)[i] is None,
        s.len() == 14 ==> forall|i: int|
            0 <= i < 14 ==> #[trigger] legs_writes(after_requests(s, attach, true), angles, powers)[i] is None,
{
    let t = after_requests(s, attach, true);
    let s1 = if attach { all_attached(s) } else { s };
    assert(t == all_detached(s1));
    assert forall|i: int| 0 <= i < s.len() implies #[trigger] t[i] == detached(s1[i]) by {}
}

/// Serving an attach request then a detach request leaves every unit as a detach alone would
/// have, apart from units without a channel, which keep the attachment.
pub proof fn lemma_detach_after_attach(s: Seq<OutputState>)
    ensures
        after_requests(s, true, true).len() == s.len(),
        forall|i: int|
            0 <= i < s.len() && s[i].channel is Some ==> #[trigger] after_requests(s, true, true)[i]
                == detached(s[i]),
        forall|i: int|
            0 <= i < s.len() ==> driving(#[trigger] after_requests(s, true, true)[i]) is None,
{
}

/// Detaching writes 0 exactly to the units that have a channel.
pub proof fn lemma_detach_silences_channels(s: Seq<OutputState>)
    ensures
        forall|i: int|
            0 <= i < s.len() ==> (#[trigger] detach_writes(s)[i] == if s[i].channel is Some {
                Some(0u32)
            } else {
                None
            }),
{
}

/// Attaching a board's units changes no channel, and afterwards every servo of a row with a
/// channel writes the duty of its commanded angle (those without a channel write nothing).
pub proof fn lemma_attach_row_then_set(s: Seq<OutputState>, angles: Seq<u16>)
    ensures
        all_attached(s).len() == s.len(),
        forall|i: int| 0 <= i < s.len() ==> (#[trigger] all_attached(s)[i]).channel == s[i].channel,
        forall|i: int|
            0 <= i < s.len() ==> (#[trigger] servo_writes(all_attached(s), angles)[i] == match s[i].channel {
                Some(m) => Some(servo_duty_spec(angles[i] as int, m as int) as u32),
                None => None,
            }),
{
}

/// Attaching all fourteen units of the legs board changes no channel, and afterwards every unit
/// with a channel writes the duty of its command: servo `i` for angle `angles[i]`, motor `j` for
/// power `powers[j]`; units without a channel write nothing.
pub proof fn lemma_attach_units_then_set(s: Seq<OutputState>, angles: Seq<u16>, powers: Seq<i16>)
    requires
        s.len() == 14,
    ensures
        all_attached(s).len() == 14,
        forall|i: int| 0 <= i < 14 ==> (#[trigger] all_attached(s)[i]).channel == s[i].channel,
        forall|i: int|
            0 <= i < 14 ==> (#[trigger] legs_writes(all_attached(s), angles, powers)[i] == match s[i].channel {
                Some(m) => if i < 12 {
                    Some(servo_duty_spec(angles[i] as int, m as int) as u32)
                } else {
                    Some(bldc_duty_spec(powers[i - 12] as int, m as int) as u32)
                },
                None => None,
            }),
{
}

/// A control cycle changes the units only as its requests say: with no request every unit keeps
/// its state; an attach request alone marks every unit attached and keeps every channel; a detach
/// request leaves no unit driving its output.
pub proof fn lemma_cycle_follows_requests(s: Seq<OutputState>, attach: bool)
    ensures
        after_requests(s, false, false) == s,
        after_requests(s, true, false).len() == s.len(),
        forall|i: int|
            0 <= i < s.len() ==> #[trigger] after_requests(s, true, false)[i] == (OutputState {
                channel: s[i].channel,
                attached: true,
            }),
        after_requests(s, attach, true).len() == s.len(),
        forall|i: int|
            0 <= i < s.len() ==> (#[trigger] after_requests(s, attach, true)[i]).channel == s[i].channel,
        forall|i: int|
            0 <= i < s.len() && s[i].channel is Some ==> !(#[trigger] after_requests(s, attach, true)[i]).attached,
{
    assert(after_requests(s, false, false) =~= s);
}

/// Angles within 0 ..= 180 are taken as they are: the servo duty is
/// `max_duty * (45 + angle) / 1800`, and on a channel of full scale 1800 or more every degree
/// more gives a strictly larger duty.
pub proof fn lemma_servo_angle_taken_as_is(a1: int, a2: int, max_duty: int)
    requires
        0 <= a1 <= 180,
        0 <= a2 <= 180,
        0 <= max_duty,
    ensures
        clamped_angle(a1) == a1,
        servo_duty_spec(a1, max_duty) == max_duty * (45 + a1) / 1800,
        max_duty >= 1800 && a1 < a2 ==> servo_duty_spec(a1, max_duty) < servo_duty_spec(a2, max_duty),
{
    if max_duty >= 1800 && a1 < a2 {
        let x = max_duty * (45 + a1);
        let y = max_duty * (45 + a2);
        assert(x + 1800 <= y && 0 <= x) by (nonlinear_arith)
            requires max_duty >= 1800, 0 <= a1 < a2, x == max_duty * (45 + a1), y == max_duty * (45 + a2);
        lemma_div_strictly_grows(x, y, 1800);
    }
}

/// Powers within -100 ..= 100 are taken as they are: the BLDC duty is
/// `max_duty * (150 + power) / 2000`, and on a channel of full scale 2000 or more every percent
/// more gives a strictly larger duty.
pub proof fn lemma_bldc_power_taken_as_is(p1: int, p2: int, max_duty: int)
    requires
        -100 <= p1 <= 100,
        -100 <= p2 <= 100,
        0 <= max_duty,
    ensures
        clamped_power(p1) == p1,
        bldc_duty_spec(p1, max_duty) == max_duty * (150 + p1) / 2000,
        max_duty >= 2000 && p1 < p2 ==> bldc_duty_spec(p1, max_duty) < bldc_duty_spec(p2, max_duty),
{
    if max_duty >= 2000 && p1 < p2 {
        let x = max_duty * (150 + p1);
        let y = max_duty * (150 + p2);
        assert(x + 2000 <= y && 0 <= x) by (nonlinear_arith)
            requires max_duty >= 2000, -100 <= p1 < p2, x == max_duty * (150 + p1), y == max_duty * (150 + p2);
        lemma_div_strictly_grows(x, y, 2000);
    }
}

/// Adding at least the divisor raises the quotient.
proof fn lemma_div_strictly_grows(x: int, y: int, d: int)
    requires
        0 <= x,
        0 < d,
        x + d <= y,
    ensures
        x / d < y / d,
{
    lemma_fundamental_div_mod(x, d);
    lemma_fundamental_div_mod(y, d);
    assert(x / d < y / d) by (nonlinear_arith)
        requires
            x == d * (x / d) + x % d,
            y == d * (y / d) + y % d,
            0 <= x % d < d,
            0 <= y % d < d,
            x + d <= y,
            0 < d;
}

/// A setup whose channel creation failed reports that very error, whatever the unit held
/// before; a setup reports success only when the channel was created, and then the unit holds it.
pub proof fn lemma_setup_reports_creation(s: OutputState, created: Result<u32, DriverError>)
    ensures
        created matches Err(e) ==> setup_outcome(s, created).install == Err::<Option<u32>, DriverError>(e),
        setup_outcome(s, created).install is Ok <==> created is Ok,
        created matches Ok(m) ==> after_setup(s, created).channel == Some(m),
        created is Err ==> after_setup(s, created).channel is None,
{
}

} // verus!
