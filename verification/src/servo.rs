//! A hobby servo on a 50 Hz PWM channel.
use vstd::prelude::*;
use crate::output::{
    DriverError, OutputState, SetupOutcome, fresh, released, release_write, detached,
    detach_write, attached, after_setup, setup_outcome, driving, release_output, detach_output,
    setup_output,
};
use crate::pwm::{servo_duty, servo_duty_spec};

verus! {

/// A servo: it has no channel until it is set up, starts detached, and only moves while
/// attached. Its methods return the duty to write to its channel, if any.
#[derive(Clone, Copy, Debug)]
pub struct Servo {
    state: OutputState,
}

impl View for Servo {
    type V = OutputState;

    closed spec fn view(&self) -> OutputState {
        self.state
    }
}

/// Duty a servo in state `s` writes for `angle`: the clamped angle's duty when it has a channel
/// and is attached, nothing otherwise.
pub open spec fn servo_write(s: OutputState, angle: int) -> Option<u32> {
    match driving(s) {
        Some(m) => Some(servo_duty_spec(angle, m as int) as u32),
        None => None,
    }
}

impl Servo {
    /// A servo without a channel, detached.
    pub fn new() -> (s: Servo)
        ensures
            s@ == fresh(),
    {
        Servo { state: OutputState { channel: None, attached: false } }
    }

    /// The servo's current state.
    pub fn state(&self) -> (s: OutputState)
        ensures
            s == self@,
    {
        self.state
    }

    /// Gives up the current channel, returning the duty (0) to write to it first, if there is one.
    /// This is the step of [`Servo::setup`] that comes before the new channel is created.
    pub fn release_channel(&mut self) -> (w: Option<u32>)
        ensures
            final(self)@ == released(old(self)@),
            w == release_write(old(self)@),
    {
        release_output(&mut self.state)
    }

    /// Sets the servo up on a new channel: the old channel (if any) is released, and when the
    /// new channel was created (`created` holds its full-scale duty) it is installed and the
    /// servo detached. A creation error leaves the servo without a channel and is returned.
    pub fn setup(&mut self, created: Result<u32, DriverError>) -> (out: SetupOutcome)
        ensures
            final(self)@ == after_setup(old(self)@, created),
            out == setup_outcome(old(self)@, created),
            created is Err ==> out.install == Err::<Option<u32>, DriverError>(created->Err_0),
            created is Ok ==> out.install == Ok::<Option<u32>, DriverError>(Some(0u32)),
    {
        setup_output(&mut self.state, created)
    }

    /// Stops driving the channel: writes 0 and marks the servo detached. Without a channel
    /// nothing changes.
    pub fn detach(&mut self) -> (w: Option<u32>)
        ensures
            final(self)@ == detached(old(self)@),
            w == detach_write(old(self)@),
    {
        detach_output(&mut self.state)
    }

    /// Marks the servo attached; its channel is not written until the next [`Servo::set`].
    pub fn attach(&mut self)
        ensures
            final(self)@ == attached(old(self)@),
    {
        self.state.attached = true;
    }

    /// The duty to write for `angle` degrees (clamped to 180): none when the servo has no channel
    /// or is detached.
    pub fn set(&self, angle: u16) -> (w: Option<u32>)
        ensures
            w == servo_write(self@, angle as int),
    {
        match self.state.channel {
            None => None,
            Some(max_duty) => {
                if !self.state.attached {
                    None
                } else {
                    Some(servo_duty(angle, max_duty))
                }
            },
        }
    }
}

} // verus!
