//! A brushless motor controller (ESC) on a 50 Hz PWM channel.
use vstd::prelude::*;
use crate::output::{
    DriverError, OutputState, SetupOutcome, fresh, released, release_write, detached,
    detach_write, attached, after_setup, setup_outcome, driving, release_output, detach_output,
    setup_output,
};
use crate::pwm::{bldc_duty, bldc_duty_spec};

verus! {

/// A BLDC controller: it has no channel until it is set up, starts detached, and only runs
/// while attached. Its methods return the duty to write to its channel, if any.
#[derive(Clone, Copy, Debug)]
pub struct BLDC {
    state: OutputState,
}

impl View for BLDC {
    type V = OutputState;

    closed spec fn view(&self) -> OutputState {
        self.state
    }
}

/// Duty a controller in state `s` writes for `power`: the clamped power's duty when it is
/// attached and has a channel, nothing otherwise.
pub open spec fn bldc_write(s: OutputState, power: int) -> Option<u32> {
    match driving(s) {
        Some(m) => Some(bldc_duty_spec(power, m as int) as u32),
        None => None,
    }
}

impl BLDC {
    /// A controller without a channel, detached.
    pub fn new() -> (b: BLDC)
        ensures
            b@ == fresh(),
    {
        BLDC { state: OutputState { channel: None, attached: false } }
    }

    /// The controller's current state.
    pub fn state(&self) -> (s: OutputState)
        ensures
            s == self@,
    {
        self.state
    }

    /// Gives up the current channel, returning the duty (0) to write to it first, if there is one.
    /// This is the step of [`BLDC::setup`] that comes before the new channel is created.
    pub fn release_channel(&mut self) -> (w: Option<u32>)
        ensures
            final(self)@ == released(old(self)@),
            w == release_write(old(self)@),
    {
        release_output(&mut self.state)
    }

    /// Sets the controller up on a new channel: the old channel (if any) is released, and when
    /// the new channel was created (`created` holds its full-scale duty) it is installed and the
    /// controller detached. A creation error leaves it without a channel and is returned.
    pub fn setup(&mut self, created: Result<u32, DriverError>) -> (out: SetupOutcome)
        ensures
            final(self)@ == after_setup(old(self)@, created),
            out == setup_outcome(old(self)@, created),
            created is Err ==> out.install == Err::<Option<u32>, DriverError>(created->Err_0),
            created is Ok ==> out.install == Ok::<Option<u32>, DriverError>(Some(0u32)),
    {
        setup_output(&mut self.state, created)
    }

    /// Stops driving the channel: writes 0 and marks the controller detached. Without a channel
    /// nothing changes.
    pub fn detach(&mut self) -> (w: Option<u32>)
        ensures
            final(self)@ == detached(old(self)@),
            w == detach_write(old(self)@),
    {
        detach_output(&mut self.state)
    }

    /// Marks the controller attached; its channel is not written until the next [`BLDC::set`].
    pub fn attach(&mut self)
        ensures
            final(self)@ == attached(old(self)@),
    {
        self.state.attached = true;
    }

    /// The duty to write for `power` percent (clamped to -100 ..= 100): none while detached or
    /// without a channel.
    pub fn set(&self, power: i16) -> (w: Option<u32>)
        ensures
            w == bldc_write(self@, power as int),
    {
        if !self.state.attached {
            return None;
        }
        match self.state.channel {
            Some(max_duty) => Some(bldc_duty(power, max_duty)),
            None => None,
        }
    }
}

} // verus!
