use robot_io::batt::BattServo;
use robot_io::legs::LegsUnit;
use robot_io::link::{heartbeat_expired, link_step, respond, LinkAction, LinkEvent, LinkState};
use robot_io::output::{DriverError, OutputState};
use robot_io::types::{BattCommand, LegsCommand};

fn ready_batt() -> BattServo {
    let mut b = BattServo::new();
    for k in 0..4 {
        assert_eq!(b.release_servo(k), None);
        b.setup_servo(k, Ok(1800));
    }
    b
}

#[test]
fn batt_servos_follow_command_only_when_attached() {
    let mut b = ready_batt();
    let cmd = BattCommand { servo: [0, 90, 180, 500] };
    assert_eq!(b.set_servos_angle(&cmd), vec![None, None, None, None]);
    b.attach_servos();
    assert_eq!(b.set_servos_angle(&cmd), vec![Some(45), Some(135), Some(225), Some(225)]);
    assert_eq!(b.detach_servos(), vec![Some(0), Some(0), Some(0), Some(0)]);
    assert_eq!(b.set_servos_angle(&cmd), vec![None, None, None, None]);
}

#[test]
fn batt_setup_failure_leaves_that_servo_unset() {
    let mut b = ready_batt();
    b.attach_servos();
    let out = b.setup_servo(2, Err(DriverError { code: 5 }));
    assert_eq!(out.release, Some(0));
    assert_eq!(b.servo_state(2), OutputState { channel: None, attached: true });
    let cmd = BattCommand { servo: [10, 10, 10, 10] };
    assert_eq!(b.set_servos_angle(&cmd), vec![Some(55), Some(55), None, Some(55)]);
}

#[test]
fn batt_control_cycle_orders_command_attach_detach() {
    let mut b = ready_batt();
    let packet: &[u8] = &[0, 90, 0xB4, 0x01, 45];
    let r = b.control_cycle(Some(packet), true, false);
    // the command is applied before the attach request is served
    assert_eq!(r.command_writes, Some(vec![None, None, None, None]));
    assert!(r.attach_served);
    assert!(r.detach_writes.is_none());
    let r = b.control_cycle(Some(packet), false, false);
    assert_eq!(r.command_writes, Some(vec![Some(45), Some(135), Some(225), Some(90)]));
    let r = b.control_cycle(None, true, true);
    assert_eq!(r.command_writes, None);
    assert_eq!(r.detach_writes, Some(vec![Some(0), Some(0), Some(0), Some(0)]));
    assert_eq!(b.servo_state(0), OutputState { channel: Some(1800), attached: false });
    let bad: &[u8] = &[1, 2];
    let r = b.control_cycle(Some(bad), false, false);
    assert_eq!(r.command_writes, None);
}

fn ready_legs() -> LegsUnit {
    let mut u = LegsUnit::new();
    for k in 0..14 {
        u.setup_unit(k, Ok(2000));
    }
    u
}

#[test]
fn legs_units_follow_command() {
    let mut u = ready_legs();
    let cmd = LegsCommand { servo: [0; 12], bldc: [0, 100] };
    assert_eq!(u.set_units(&cmd), vec![None; 14]);
    u.attach_units();
    let mut expected = vec![Some(50u32); 12];
    expected.push(Some(150));
    expected.push(Some(250));
    assert_eq!(u.set_units(&cmd), expected);
    assert_eq!(u.detach_units(), vec![Some(0); 14]);
    assert_eq!(u.set_units(&cmd), vec![None; 14]);
}

#[test]
fn legs_release_and_states() {
    let mut u = ready_legs();
    assert_eq!(u.release_unit(13), Some(0));
    assert_eq!(u.unit_state(13), OutputState { channel: None, attached: false });
    assert_eq!(u.unit_state(12), OutputState { channel: Some(2000), attached: false });
    u.attach_units();
    let cmd = LegsCommand { servo: [180; 12], bldc: [-100, -100] };
    let w = u.set_units(&cmd);
    assert_eq!(w[11], Some(250));
    assert_eq!(w[12], Some(50));
    assert_eq!(w[13], None);
}

#[test]
fn legs_control_cycle() {
    let mut u = ready_legs();
    let mut packet: Vec<u8> = vec![90; 12];
    packet.push(0);
    packet.push(1);
    let r = u.control_cycle(Some(&packet), true, false);
    assert_eq!(r.command_writes, Some(vec![None; 14]));
    let r = u.control_cycle(Some(&packet), false, false);
    let mut expected = vec![Some(150u32); 12];
    expected.push(Some(150));
    expected.push(Some(149));
    assert_eq!(r.command_writes, Some(expected));
    let r = u.control_cycle(None, false, true);
    assert_eq!(r.detach_writes, Some(vec![Some(0); 14]));
}

#[test]
fn link_reads_header_then_body() {
    let (s, a) = link_step(LinkState::AwaitHeader, LinkEvent::Header([0, 0, 0, 1]), 0);
    assert_eq!(s, LinkState::AwaitBody(1));
    assert!(matches!(a, LinkAction::Nothing));
    let (s, a) = link_step(s, LinkEvent::Body(vec![1]), 300);
    assert_eq!(s, LinkState::AwaitHeader);
    match a {
        LinkAction::SendStatus(f) => assert_eq!(f, vec![0, 0, 0, 2, 0xAC, 0x02]),
        _ => panic!("expected a status reply"),
    }
}

#[test]
fn link_loss_requests_detach() {
    let (s, a) = link_step(LinkState::AwaitHeader, LinkEvent::ReadFailed, 0);
    assert_eq!(s, LinkState::Closed);
    assert!(matches!(a, LinkAction::RequestDetach));
    let (s, a) = link_step(LinkState::AwaitBody(3), LinkEvent::ReadFailed, 0);
    assert_eq!(s, LinkState::Closed);
    assert!(matches!(a, LinkAction::RequestDetach));
}

#[test]
fn link_answers_commands() {
    assert!(matches!(respond(&[0], 1), LinkAction::Nothing));
    assert!(matches!(respond(&[2], 1), LinkAction::RequestAttach));
    assert!(matches!(respond(&[3], 1), LinkAction::RequestDetach));
    assert!(matches!(respond(&[9], 1), LinkAction::Undecodable));
    assert!(matches!(respond(&[], 1), LinkAction::Undecodable));
    match respond(&[1], 5) {
        LinkAction::SendStatus(f) => assert_eq!(f, vec![0, 0, 0, 1, 5]),
        _ => panic!("expected a status reply"),
    }
}

#[test]
fn heartbeat_timeout() {
    assert!(!heartbeat_expired(5000, 2000));
    assert!(heartbeat_expired(5001, 2000));
    assert!(!heartbeat_expired(0, 0));
}
