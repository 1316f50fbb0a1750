//! The state that a PWM-driven unit (servo or BLDC controller) keeps about its output channel,
//! and the transitions shared by both kinds of unit.
use vstd::prelude::*;

verus! {

/// Error reported by the PWM driver layer when a channel cannot be created; `code` is the
/// platform's error number.
#[derive(Clone, Copy, Debug, PartialEq, Eq, Structural)]
pub struct DriverError {
    pub code: i32,
}

/// What a unit knows about its output: the full-scale duty of its channel, if it has one,
/// and whether it is attached (only an attached unit drives its output).
#[derive(Clone, Copy, Debug, PartialEq, Eq, Structural)]
pub struct OutputState {
    pub channel: Option<u32>,
    pub attached: bool,
}

/// The result of setting a unit up on a new channel.
///
/// `release` is the duty to write to the channel the unit held before (0, to silence it), if it
/// held one. `install` is the driver error if the new channel could not be created, and otherwise
/// the duty to write to the new channel (0: a freshly set up unit starts detached).
#[derive(Clone, Copy, Debug)]
pub struct SetupOutcome {
    pub release: Option<u32>,
    pub install: Result<Option<u32>, DriverError>,
}

/// The state of a unit that was never set up.
pub open spec fn fresh() -> OutputState {
    OutputState { channel: None, attached: false }
}

/// State after giving up the channel: the channel is gone, the attachment flag is kept.
pub open spec fn released(s: OutputState) -> OutputState {
    OutputState { channel: None, attached: s.attached }
}

/// Duty written when the channel is given up: 0 on the old channel, if there was one.
pub open spec fn release_write(s: OutputState) -> Option<u32> {
    if s.channel is Some { Some(0u32) } else { None }
}

/// State after a detach: a unit with a channel stops driving it; a unit without one is unchanged.
pub open spec fn detached(s: OutputState) -> OutputState {
    if s.channel is Some { OutputState { channel: s.channel, attached: false } } else { s }
}

/// Duty written by a detach: 0 on the channel, if there is one.
pub open spec fn detach_write(s: OutputState) -> Option<u32> {
    release_write(s)
}

/// State after an attach.
pub open spec fn attached(s: OutputState) -> OutputState {
    OutputState { channel: s.channel, attached: true }
}

/// State after a setup whose channel creation reported `created`: the old channel is given up;
/// on success the new channel is installed and the unit detached.
pub open spec fn after_setup(s: OutputState, created: Result<u32, DriverError>) -> OutputState {
    match created {
        Ok(max_duty) => OutputState { channel: Some(max_duty), attached: false },
        Err(_) => released(s),
    }
}

/// What a setup reports, see [`SetupOutcome`].
pub open spec fn setup_outcome(s: OutputState, created: Result<u32, DriverError>) -> SetupOutcome {
    SetupOutcome {
        release: release_write(s),
        install: match created {
            Ok(_) => Ok(Some(0u32)),
            Err(e) => Err(e),
        },
    }
}

/// Whether a unit in state `s` drives its output, and on which full scale.
pub open spec fn driving(s: OutputState) -> Option<u32> {
    match s.channel {
        Some(m) => if s.attached { Some(m) } else { None },
        None => None,
    }
}

/// Gives up the channel of `s`, returning the duty to write to it before it is dropped.
pub fn release_output(s: &mut OutputState) -> (w: Option<u32>)
    ensures
        *final(s) == released(*old(s)),
        w == release_write(*old(s)),
{
    let w = if s.channel.is_some() { Some(0u32) } else { None };
    s.channel = None;
    w
}

/// Detaches `s`, returning the duty to write (see [`detached`] and [`detach_write`]).
pub fn detach_output(s: &mut OutputState) -> (w: Option<u32>)
    ensures
        *final(s) == detached(*old(s)),
        w == detach_write(*old(s)),
{
    match s.channel {
        Some(_) => {
            s.attached = false;
            Some(0u32)
        },
        None => None,
    }
}

/// Sets `s` up on a new channel whose creation reported `created`.
pub fn setup_output(s: &mut OutputState, created: Result<u32, DriverError>) -> (out: SetupOutcome)
    ensures
        *final(s) == after_setup(*old(s), created),
        out == setup_outcome(*old(s), created),
        created is Err ==> out.install == Err::<Option<u32>, DriverError>(created->Err_0),
        created is Ok ==> out.install == Ok::<Option<u32>, DriverError>(Some(0u32)),
        out.release == (if old(s).channel is Some { Some(0u32) } else { None }),
{
    let release = release_output(s);
    match created {
        Ok(max_duty) => {
            s.channel = Some(max_duty);
            let w = detach_output(s);
            SetupOutcome { release, install: Ok(w) }
        },
        Err(e) => SetupOutcome { release, install: Err(e) },
    }
}

} // verus!
