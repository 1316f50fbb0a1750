use robot_io::bldc::BLDC;
use robot_io::output::{DriverError, OutputState};
use robot_io::pwm::{bldc_duty, clamp_bldc_power, clamp_servo_angle, servo_duty};
use robot_io::servo::Servo;

fn state(channel: Option<u32>, attached: bool) -> OutputState {
    OutputState { channel, attached }
}

#[test]
fn servo_duty_follows_pulse_width() {
    // 0.5 ms .. 2.5 ms of a 20 ms period: (45 + angle) / 1800 of full scale
    assert_eq!(servo_duty(0, 1800), 45);
    assert_eq!(servo_duty(90, 1000), 75);
    assert_eq!(servo_duty(180, 1800), 225);
    assert_eq!(servo_duty(0, 8191), 204);
}

#[test]
fn servo_angle_is_clamped() {
    assert_eq!(clamp_servo_angle(181), 180);
    assert_eq!(clamp_servo_angle(90), 90);
    assert_eq!(servo_duty(200, 1000), servo_duty(180, 1000));
    assert_eq!(servo_duty(u16::MAX, u32::MAX), servo_duty(180, u32::MAX));
    assert_eq!(servo_duty(180, u32::MAX), 536870911);
}

#[test]
fn bldc_duty_follows_power() {
    // -100 -> 2.5 %, 0 -> 7.5 %, 100 -> 12.5 %
    assert_eq!(bldc_duty(-100, 2000), 50);
    assert_eq!(bldc_duty(0, 2000), 150);
    assert_eq!(bldc_duty(100, 2000), 250);
    assert_eq!(bldc_duty(0, 1000), 75);
    assert_eq!(bldc_duty(150, 2000), 250);
    assert_eq!(bldc_duty(i16::MIN, 2000), 50);
    assert_eq!(clamp_bldc_power(-101), -100);
    assert_eq!(clamp_bldc_power(42), 42);
}

#[test]
fn new_servo_is_unset_and_still() {
    let s = Servo::new();
    assert_eq!(s.state(), state(None, false));
    assert_eq!(s.set(90), None);
}

#[test]
fn servo_setup_starts_detached() {
    let mut s = Servo::new();
    let out = s.setup(Ok(1000));
    assert_eq!(out.release, None);
    assert_eq!(out.install, Ok(Some(0)));
    assert_eq!(s.state(), state(Some(1000), false));
    assert_eq!(s.set(90), None);
    s.attach();
    assert_eq!(s.set(90), Some(75));
    assert_eq!(s.set(300), Some(125));
}

#[test]
fn servo_setup_again_releases_old_channel() {
    let mut s = Servo::new();
    s.setup(Ok(1000));
    s.attach();
    let out = s.setup(Ok(2000));
    assert_eq!(out.release, Some(0));
    assert_eq!(s.state(), state(Some(2000), false));
}

#[test]
fn servo_setup_failure_drops_channel() {
    let mut s = Servo::new();
    s.setup(Ok(1000));
    s.attach();
    let out = s.setup(Err(DriverError { code: -1 }));
    assert_eq!(out.release, Some(0));
    assert_eq!(out.install, Err(DriverError { code: -1 }));
    assert_eq!(s.state(), state(None, true));
    assert_eq!(s.set(90), None);
}

#[test]
fn servo_release_then_setup() {
    let mut s = Servo::new();
    s.setup(Ok(1000));
    assert_eq!(s.release_channel(), Some(0));
    assert_eq!(s.release_channel(), None);
    let out = s.setup(Ok(500));
    assert_eq!(out.release, None);
    assert_eq!(s.state(), state(Some(500), false));
}

#[test]
fn servo_detach_stops_output() {
    let mut s = Servo::new();
    s.setup(Ok(1800));
    s.attach();
    assert_eq!(s.set(0), Some(45));
    assert_eq!(s.detach(), Some(0));
    assert_eq!(s.set(0), None);
    assert_eq!(s.state(), state(Some(1800), false));
}

#[test]
fn servo_detach_without_channel_keeps_flag() {
    let mut s = Servo::new();
    s.attach();
    assert_eq!(s.detach(), None);
    assert_eq!(s.state(), state(None, true));
    assert_eq!(s.set(10), None);
}

#[test]
fn bldc_lifecycle() {
    let mut b = BLDC::new();
    assert_eq!(b.set(50), None);
    let out = b.setup(Ok(2000));
    assert_eq!(out.install, Ok(Some(0)));
    assert_eq!(b.set(50), None);
    b.attach();
    assert_eq!(b.set(50), Some(200));
    assert_eq!(b.set(-100), Some(50));
    assert_eq!(b.detach(), Some(0));
    assert_eq!(b.set(50), None);
    assert_eq!(b.release_channel(), Some(0));
    assert_eq!(b.state(), state(None, false));
}

#[test]
fn duties_on_default_eight_bit_channel() {
    // full scale 256: the values the 50 Hz timer's default resolution gives
    assert_eq!(servo_duty(0, 256), 6);
    assert_eq!(servo_duty(90, 256), 19);
    assert_eq!(servo_duty(180, 256), 32);
    assert_eq!(bldc_duty(-100, 256), 6);
    assert_eq!(bldc_duty(0, 256), 19);
    assert_eq!(bldc_duty(100, 256), 32);
}
