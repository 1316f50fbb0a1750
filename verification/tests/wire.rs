use robot_io::types::{ESPStatus, MainCommand};
use robot_io::wire::{
    decode_batt_command, decode_legs_command, decode_main_command, encode_status, frame,
    frame_header, frame_length, status_reply,
};

#[test]
fn main_command_decodes_by_variant_index() {
    assert_eq!(decode_main_command(&[0]), Some(MainCommand::Setup));
    assert_eq!(decode_main_command(&[1]), Some(MainCommand::GetStatus));
    assert_eq!(decode_main_command(&[2]), Some(MainCommand::AttachServo));
    assert_eq!(decode_main_command(&[3, 99]), Some(MainCommand::DetachServo));
    assert_eq!(decode_main_command(&[4]), None);
    assert_eq!(decode_main_command(&[]), None);
    assert_eq!(decode_main_command(&[0x80]), None);
}

#[test]
fn main_command_index_roundtrip() {
    for c in [MainCommand::Setup, MainCommand::GetStatus, MainCommand::AttachServo, MainCommand::DetachServo] {
        assert_eq!(MainCommand::from_index(c.index()), Some(c));
    }
    assert_eq!(MainCommand::from_index(7), None);
}

#[test]
fn batt_command_decodes_four_varints() {
    let c = decode_batt_command(&[10, 20, 0xB4, 0x01, 45]).unwrap();
    assert_eq!(c.servo, [10, 20, 180, 45]);
    assert!(decode_batt_command(&[10, 20, 30]).is_none());
    assert!(decode_batt_command(&[]).is_none());
}

#[test]
fn legs_command_decodes_servos_then_motors() {
    let mut bytes: Vec<u8> = (0u8..12).collect();
    bytes.push(1); // zig-zag -1
    bytes.push(0xC8); // zig-zag 100 = 200
    bytes.push(0x01);
    let c = decode_legs_command(&bytes).unwrap();
    assert_eq!(c.servo, [0, 1, 2, 3, 4, 5, 6, 7, 8, 9, 10, 11]);
    assert_eq!(c.bldc, [-1, 100]);
    assert!(decode_legs_command(&bytes[..13]).is_none());
}

#[test]
fn status_encodes_as_varint() {
    assert_eq!(encode_status(&ESPStatus { heartbeat: 5 }), vec![5]);
    assert_eq!(encode_status(&ESPStatus { heartbeat: 300 }), vec![0xAC, 0x02]);
    assert_eq!(encode_status(&ESPStatus { heartbeat: u32::MAX }), vec![0xFF, 0xFF, 0xFF, 0xFF, 0x0F]);
}

#[test]
fn frame_header_is_big_endian_length() {
    assert_eq!(frame_header(70000), [0x00, 0x01, 0x11, 0x70]);
    assert_eq!(frame_length([0x00, 0x01, 0x11, 0x70]), 70000);
    assert_eq!(frame_length(frame_header(0)), 0);
    assert_eq!(frame_length([0xFF, 0xFF, 0xFF, 0xFF]), u32::MAX);
    assert_eq!(frame(&vec![7, 8]), vec![0, 0, 0, 2, 7, 8]);
    assert_eq!(frame(&vec![]), vec![0, 0, 0, 0]);
}

#[test]
fn status_reply_is_framed_status() {
    assert_eq!(status_reply(5), vec![0, 0, 0, 1, 5]);
    assert_eq!(status_reply(300), vec![0, 0, 0, 2, 0xAC, 0x02]);
}
