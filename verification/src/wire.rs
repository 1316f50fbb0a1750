//! The wire formats of the boards: postcard-encoded messages, and the length-prefixed frames
//! that carry them over TCP.
use vstd::prelude::*;
use vstd::arithmetic::div_mod::{lemma_fundamental_div_mod, lemma_fundamental_div_mod_converse};
use crate::types::{BattCommand, ESPStatus, LegsCommand, MainCommand, command_for_index};

verus! {

/// What `postcard::from_bytes::<u32>` yields on `bytes`, if it succeeds.
pub uninterp spec fn postcard_u32(bytes: Seq<u8>) -> Option<u32>;

/// What `postcard::from_bytes::<[u16; 4]>` yields on `bytes`, if it succeeds.
pub uninterp spec fn postcard_u16x4(bytes: Seq<u8>) -> Option<Seq<u16>>;

/// What `postcard::from_bytes::<([u16; 12], [i16; 2])>` yields on `bytes`, if it succeeds.
pub uninterp spec fn postcard_u16x12_i16x2(bytes: Seq<u8>) -> Option<(Seq<u16>, Seq<i16>)>;

/// Postcard's varint encoding of an unsigned integer: seven bits per byte, least significant
/// group first, the high bit set on every byte but the last.
pub open spec fn varint(x: nat) -> Seq<u8>
    decreases x,
{
    if x < 128 {
        seq![x as u8]
    } else {
        seq![(x % 128 + 128) as u8] + varint(x / 128)
    }
}

/// Calls `postcard::from_bytes::<u32>`. Claimed: the result is the named
/// [`postcard_u32`] of the input; the empty input fails; an input whose first byte is below 128
/// decodes to that byte (a one-byte varint).
#[verifier::external_body]
fn postcard_from_bytes_u32(bytes: &[u8]) -> (r: Option<u32>)
    ensures
        r == postcard_u32(bytes@),
        bytes@.len() == 0 ==> r is None,
        bytes@.len() > 0 && bytes@[0] < 128 ==> r == Some(bytes@[0] as u32),
{
    postcard::from_bytes::<u32>(bytes).ok()
}

/// Calls `postcard::from_bytes::<[u16; 4]>`. Claimed: the result is the named
/// [`postcard_u16x4`] of the input.
#[verifier::external_body]
fn postcard_from_bytes_u16x4(bytes: &[u8]) -> (r: Option<[u16; 4]>)
    ensures
        match r {
            Some(a) => postcard_u16x4(bytes@) == Some(a@),
            None => postcard_u16x4(bytes@) is None,
        },
{
    postcard::from_bytes::<[u16; 4]>(bytes).ok()
}

/// Calls `postcard::from_bytes::<([u16; 12], [i16; 2])>`. Claimed: the result is the named
/// [`postcard_u16x12_i16x2`] of the input.
#[verifier::external_body]
fn postcard_from_bytes_legs(bytes: &[u8]) -> (r: Option<([u16; 12], [i16; 2])>)
    ensures
        match r {
            Some(p) => postcard_u16x12_i16x2(bytes@) == Some((p.0@, p.1@)),
            None => postcard_u16x12_i16x2(bytes@) is None,
        },
{
    postcard::from_bytes::<([u16; 12], [i16; 2])>(bytes).ok()
}

/// Calls `postcard::to_allocvec::<u32>`. Claimed: it succeeds (its `Vec` output never runs out
/// of room) and yields the varint encoding of the value.
#[verifier::external_body]
fn postcard_to_allocvec_u32(value: u32) -> (r: Option<Vec<u8>>)
    ensures
        r is Some,
        r.unwrap()@ == varint(value as nat),
{
    postcard::to_allocvec(&value).ok()
}

/// Decodes a [`MainCommand`]: postcard writes a unit variant as its variant index, a `u32`
/// varint. An undecodable index or an index past the last variant gives `None`; bytes after the
/// index are ignored.
pub fn decode_main_command(body: &[u8]) -> (r: Option<MainCommand>)
    ensures
        r == match postcard_u32(body@) {
            Some(index) => command_for_index(index),
            None => None,
        },
        body@.len() == 0 ==> r is None,
        body@.len() > 0 && body@[0] < 128 ==> r == command_for_index(body@[0] as u32),
{
    match postcard_from_bytes_u32(body) {
        Some(index) => MainCommand::from_index(index),
        None => None,
    }
}

/// Decodes a [`BattCommand`]: postcard writes a struct as its fields in order, so the command's
/// wire form is that of its one field, four `u16` varints.
pub fn decode_batt_command(body: &[u8]) -> (r: Option<BattCommand>)
    ensures
        match r {
            Some(c) => postcard_u16x4(body@) == Some(c.servo@),
            None => postcard_u16x4(body@) is None,
        },
{
    match postcard_from_bytes_u16x4(body) {
        Some(servo) => Some(BattCommand { servo }),
        None => None,
    }
}

/// Decodes a [`LegsCommand`]: twelve `u16` varints for the servos, then two zig-zag `i16`
/// varints for the motors.
pub fn decode_legs_command(body: &[u8]) -> (r: Option<LegsCommand>)
    ensures
        match r {
            Some(c) => postcard_u16x12_i16x2(body@) == Some((c.servo@, c.bldc@)),
            None => postcard_u16x12_i16x2(body@) is None,
        },
{
    match postcard_from_bytes_legs(body) {
        Some(p) => Some(LegsCommand { servo: p.0, bldc: p.1 }),
        None => None,
    }
}

/// Encodes an [`ESPStatus`]: its one field as a `u32` varint.
pub fn encode_status(status: &ESPStatus) -> (bytes: Vec<u8>)
    ensures
        bytes@ == varint(status.heartbeat as nat),
{
    match postcard_to_allocvec_u32(status.heartbeat) {
        Some(bytes) => bytes,
        None => Vec::new(),
    }
}

/// Big-endian bytes of a 32-bit value.
pub open spec fn be_bytes(x: int) -> Seq<u8> {
    seq![
        (x / 0x1000000 % 0x100) as u8,
        (x / 0x10000 % 0x100) as u8,
        (x / 0x100 % 0x100) as u8,
        (x % 0x100) as u8,
    ]
}

/// The value of four big-endian bytes.
pub open spec fn be_value(b: Seq<u8>) -> int {
    b[0] * 0x1000000 + b[1] * 0x10000 + b[2] * 0x100 + b[3]
}

/// The length prefix of a frame: the payload length as a big-endian `u32`. A length that does
/// not fit in 32 bits is written modulo 2^32.
pub fn frame_header(len: usize) -> (h: [u8; 4])
    ensures
        h@ == be_bytes(len as int % 0x1_0000_0000),
{
    let x: u64 = (len as u64) % 0x1_0000_0000;
    let h = [
        (x / 0x1000000 % 0x100) as u8,
        (x / 0x10000 % 0x100) as u8,
        (x / 0x100 % 0x100) as u8,
        (x % 0x100) as u8,
    ];
    assert(h@ =~= be_bytes(len as int % 0x1_0000_0000));
    h
}

/// The payload length announced by a frame's length prefix.
pub fn frame_length(header: [u8; 4]) -> (n: u32)
    ensures
        n == be_value(header@),
{
    (header[0] as u32) * 0x1000000 + (header[1] as u32) * 0x10000 + (header[2] as u32) * 0x100
        + (header[3] as u32)
}

/// A frame: the length prefix of `payload` followed by `payload`.
pub fn frame(payload: &Vec<u8>) -> (f: Vec<u8>)
    ensures
        f@ == be_bytes(payload@.len() as int % 0x1_0000_0000) + payload@,
{
    let h = frame_header(payload.len());
    let mut f: Vec<u8> = Vec::new();
    f.push(h[0]);
    f.push(h[1]);
    f.push(h[2]);
    f.push(h[3]);
    let mut i: usize = 0;
    while i < payload.len()
        invariant
            i <= payload@.len(),
            f@ == h@ + payload@.subrange(0, i as int),
        decreases payload@.len() - i,
    {
        f.push(payload[i]);
        i = i + 1;
        assert(f@ =~= h@ + payload@.subrange(0, i as int));
    }
    assert(payload@.subrange(0, payload@.len() as int) =~= payload@);
    f
}

/// The frame that answers a status request: the encoded [`ESPStatus`] behind its length prefix.
pub fn status_reply(heartbeat: u32) -> (f: Vec<u8>)
    ensures
        f@ == be_bytes(varint(heartbeat as nat).len() as int) + varint(heartbeat as nat),
{
    let payload = encode_status(&ESPStatus { heartbeat });
    proof {
        lemma_varint_len_u32(heartbeat as nat);
    }
    frame(&payload)
}

/// A `u32` varint takes one to five bytes.
pub proof fn lemma_varint_len_u32(x: nat)
    requires
        x < 0x1_0000_0000,
    ensures
        1 <= varint(x).len() <= 5,
    decreases x,
{
    reveal_with_fuel(varint, 5);
}

/// Four bytes read as a big-endian value and written back give the same bytes.
proof fn lemma_be_bytes_of_digits(b0: int, b1: int, b2: int, b3: int)
    requires
        0 <= b0 < 256,
        0 <= b1 < 256,
        0 <= b2 < 256,
        0 <= b3 < 256,
    ensures
        be_bytes(b0 * 0x1000000 + b1 * 0x10000 + b2 * 0x100 + b3) == seq![b0 as u8, b1 as u8, b2 as u8, b3 as u8],
{
    let v = b0 * 0x1000000 + b1 * 0x10000 + b2 * 0x100 + b3;
    lemma_fundamental_div_mod_converse(v, 0x1000000, b0, b1 * 0x10000 + b2 * 0x100 + b3);
    lemma_fundamental_div_mod_converse(b0, 0x100, 0, b0);
    lemma_fundamental_div_mod_converse(v, 0x10000, b0 * 0x100 + b1, b2 * 0x100 + b3);
    lemma_fundamental_div_mod_converse(b0 * 0x100 + b1, 0x100, b0, b1);
    lemma_fundamental_div_mod_converse(v, 0x100, b0 * 0x10000 + b1 * 0x100 + b2, b3);
    lemma_fundamental_div_mod_converse(b0 * 0x10000 + b1 * 0x100 + b2, 0x100, b0 * 0x100 + b1, b2);
    assert(be_bytes(v) =~= seq![b0 as u8, b1 as u8, b2 as u8, b3 as u8]);
}

/// Reading a frame's length prefix gives back the payload length (modulo 2^32), and every
/// four-byte prefix is the prefix of the length it announces.
pub proof fn lemma_frame_header_roundtrip(len: int, header: Seq<u8>)
    requires
        0 <= len < 0x1_0000_0000,
        header.len() == 4,
    ensures
        be_value(be_bytes(len)) == len,
        be_bytes(be_value(header)) == header,
{
    lemma_be_bytes_of_digits(header[0] as int, header[1] as int, header[2] as int, header[3] as int);
    assert(be_bytes(be_value(header)) =~= header);
    let c0 = len / 0x1000000;
    let r0 = len % 0x1000000;
    let c1 = r0 / 0x10000;
    let r1 = r0 % 0x10000;
    let c2 = r1 / 0x100;
    let c3 = r1 % 0x100;
    lemma_fundamental_div_mod(len, 0x1000000);
    lemma_fundamental_div_mod(r0, 0x10000);
    lemma_fundamental_div_mod(r1, 0x100);
    assert(len == c0 * 0x1000000 + c1 * 0x10000 + c2 * 0x100 + c3);
    lemma_be_bytes_of_digits(c0, c1, c2, c3);
}

/// The length prefix of a frame announces the length of the payload that follows it.
pub proof fn lemma_frame_announces_payload(payload: Seq<u8>)
    requires
        payload.len() < 0x1_0000_0000,
    ensures
        be_value((be_bytes(payload.len() as int % 0x1_0000_0000) + payload).subrange(0, 4)) == payload.len(),
        (be_bytes(payload.len() as int % 0x1_0000_0000) + payload).subrange(4, payload.len() + 4int) == payload,
{
    let f = be_bytes(payload.len() as int % 0x1_0000_0000) + payload;
    assert(f.subrange(0, 4) =~= be_bytes(payload.len() as int));
    assert(f.subrange(4, payload.len() + 4int) =~= payload);
    lemma_frame_header_roundtrip(payload.len() as int, f.subrange(0, 4));
}

} // verus!
