//! Messages exchanged between the host and the boards.
use vstd::prelude::*;

verus! {

/// Target angles, in degrees, for the four servos of the battery board.
#[derive(Clone, Copy, Debug)]
pub struct BattCommand {
    pub servo: [u16; 4],
}

/// Control requests sent to a board over its TCP link.
#[derive(Clone, Copy, Debug, PartialEq, Eq, Structural)]
pub enum MainCommand {
    Setup,
    GetStatus,
    AttachServo,
    DetachServo,
}

/// A board's status report: the time, in milliseconds, of the last command it applied.
#[derive(Clone, Copy, Debug, PartialEq, Eq, Structural)]
pub struct ESPStatus {
    pub heartbeat: u32,
}

/// Target angles for the twelve leg servos and power levels for the two BLDC motors.
#[derive(Clone, Copy, Debug)]
pub struct LegsCommand {
    pub servo: [u16; 12],
    pub bldc: [i16; 2],
}

/// Position of a command in the declaration order of [`MainCommand`]; it is the variant index
/// that identifies the command on the wire.
pub open spec fn command_index(c: MainCommand) -> u32 {
    match c {
        MainCommand::Setup => 0,
        MainCommand::GetStatus => 1,
        MainCommand::AttachServo => 2,
        MainCommand::DetachServo => 3,
    }
}

/// The command with a given variant index, if there is one.
pub open spec fn command_for_index(index: u32) -> Option<MainCommand> {
    if index == 0 {
        Some(MainCommand::Setup)
    } else if index == 1 {
        Some(MainCommand::GetStatus)
    } else if index == 2 {
        Some(MainCommand::AttachServo)
    } else if index == 3 {
        Some(MainCommand::DetachServo)
    } else {
        None
    }
}

impl MainCommand {
    /// The command's variant index.
    pub fn index(&self) -> (i: u32)
        ensures
            i == command_index(*self),
    {
        match self {
            MainCommand::Setup => 0,
            MainCommand::GetStatus => 1,
            MainCommand::AttachServo => 2,
            MainCommand::DetachServo => 3,
        }
    }

    /// The command with variant index `index`; `None` for an index past the last variant.
    pub fn from_index(index: u32) -> (c: Option<MainCommand>)
        ensures
            c == command_for_index(index),
    {
        if index == 0 {
            Some(MainCommand::Setup)
        } else if index == 1 {
            Some(MainCommand::GetStatus)
        } else if index == 2 {
            Some(MainCommand::AttachServo)
        } else if index == 3 {
            Some(MainCommand::DetachServo)
        } else {
            None
        }
    }
}

/// Reading back the index of a command gives the command again, and the indices in use are
/// exactly 0 ..= 3.
pub proof fn lemma_command_index_roundtrip(c: MainCommand, index: u32)
    ensures
        command_for_index(command_index(c)) == Some(c),
        command_for_index(index) is Some <==> index < 4,
        command_for_index(index) matches Some(d) ==> command_index(d) == index,
{
}

} // verus!
