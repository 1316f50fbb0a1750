//! The TCP control link of a board: frames are read one after the other, each command is
//! answered or turned into a request for the control loop, and a lost connection detaches the
//! units.
use vstd::prelude::*;
use crate::types::{MainCommand, command_for_index};
use crate::wire::{decode_main_command, frame_length, status_reply, postcard_u32, be_bytes, be_value, varint};

verus! {

/// Where a connection is in its stream of frames.
#[derive(Clone, Copy, Debug, PartialEq, Eq, Structural)]
pub enum LinkState {
    /// The next four bytes are a length prefix.
    AwaitHeader,
    /// The next `len` bytes are a frame body.
    AwaitBody(u32),
    /// The connection was lost.
    Closed,
}

/// What a read on the connection produced.
#[derive(Clone, Debug)]
pub enum LinkEvent {
    /// The four bytes of a length prefix.
    Header([u8; 4]),
    /// A frame body, of the announced length.
    Body(Vec<u8>),
    /// The read failed: the peer is gone.
    ReadFailed,
}

/// What the board does in answer to an event.
#[derive(Clone, Debug)]
pub enum LinkAction {
    /// Nothing (a length prefix was read, or the command was `Setup`).
    Nothing,
    /// The frame body is not a command; the connection goes on.
    Undecodable,
    /// Write this frame, a status report, back to the peer.
    SendStatus(Vec<u8>),
    /// Ask the control loop to attach the units.
    RequestAttach,
    /// Ask the control loop to detach the units (also done when the connection is lost).
    RequestDetach,
}

/// The answer to a command, see [`LinkAction`].
pub open spec fn command_reaction(c: Option<MainCommand>, action: LinkAction, heartbeat: u32) -> bool {
    match c {
        None => action is Undecodable,
        Some(MainCommand::Setup) => action is Nothing,
        Some(MainCommand::GetStatus) => action matches LinkAction::SendStatus(f)
            && f@ == be_bytes(varint(heartbeat as nat).len() as int) + varint(heartbeat as nat),
        Some(MainCommand::AttachServo) => action is RequestAttach,
        Some(MainCommand::DetachServo) => action is RequestDetach,
    }
}

/// The command a frame body carries.
pub open spec fn body_command(body: Seq<u8>) -> Option<MainCommand> {
    match postcard_u32(body) {
        Some(index) => command_for_index(index),
        None => None,
    }
}

/// Whether `event` is what a read in `state` can produce.
pub open spec fn event_fits(state: LinkState, event: LinkEvent) -> bool {
    match state {
        LinkState::AwaitHeader => !(event is Body),
        LinkState::AwaitBody(len) => match event {
            LinkEvent::Header(_) => false,
            LinkEvent::Body(b) => b@.len() == len,
            LinkEvent::ReadFailed => true,
        },
        LinkState::Closed => false,
    }
}

/// The answer to a frame body: the command it carries is answered, an undecodable body is
/// skipped. `heartbeat` is the board's current heartbeat, reported by a status request.
pub fn respond(body: &[u8], heartbeat: u32) -> (action: LinkAction)
    ensures
        command_reaction(body_command(body@), action, heartbeat),
        body@.len() == 0 ==> action is Undecodable,
        body@.len() > 0 && body@[0] < 128 ==> command_reaction(
            command_for_index(body@[0] as u32),
            action,
            heartbeat,
        ),
{
    match decode_main_command(body) {
        None => LinkAction::Undecodable,
        Some(MainCommand::Setup) => LinkAction::Nothing,
        Some(MainCommand::GetStatus) => LinkAction::SendStatus(status_reply(heartbeat)),
        Some(MainCommand::AttachServo) => LinkAction::RequestAttach,
        Some(MainCommand::DetachServo) => LinkAction::RequestDetach,
    }
}

/// One step of a connection: a length prefix announces the next body, a body is answered and
/// the next prefix awaited, a failed read closes the connection and asks for a detach.
pub fn link_step(state: LinkState, event: LinkEvent, heartbeat: u32) -> (r: (LinkState, LinkAction))
    requires
        event_fits(state, event),
    ensures
        match event {
            LinkEvent::ReadFailed => r.0 == LinkState::Closed && r.1 is RequestDetach,
            LinkEvent::Header(h) => r.0 == LinkState::AwaitBody(be_value(h@) as u32) && r.1 is Nothing,
            LinkEvent::Body(b) => r.0 == LinkState::AwaitHeader && command_reaction(body_command(b@), r.1, heartbeat),
        },
{
    match event {
        LinkEvent::ReadFailed => (LinkState::Closed, LinkAction::RequestDetach),
        LinkEvent::Header(h) => (LinkState::AwaitBody(frame_length(h)), LinkAction::Nothing),
        LinkEvent::Body(b) => (LinkState::AwaitHeader, respond(b.as_slice(), heartbeat)),
    }
}

/// Milliseconds without a heartbeat after which a board's UDP task is taken for dead.
pub const HEARTBEAT_TIMEOUT_MS: u32 = 3000;

/// Whether the heartbeat `last`, read at time `now`, is older than the timeout.
pub fn heartbeat_expired(now: u32, last: u32) -> (expired: bool)
    requires
        last <= now,
    ensures
        expired == (now - last > HEARTBEAT_TIMEOUT_MS),
{
    now - last > HEARTBEAT_TIMEOUT_MS
}

} // verus!
