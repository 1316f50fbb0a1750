//! The legs board: twelve leg servos and two BLDC wheel motors driven by commands received
//! over UDP.
use vstd::prelude::*;
use crate::bank::{
    fresh_servos, attach_all, detach_all, set_all, release_one, setup_one, all_attached,
    all_detached, detach_writes, after_requests, CycleReport,
};
use crate::bldc::{BLDC, bldc_write};
use crate::output::{OutputState, DriverError, SetupOutcome, fresh, released, release_write, after_setup, setup_outcome};
use crate::servo::{Servo, servo_write};
use crate::types::LegsCommand;
use crate::wire::{decode_legs_command, postcard_u16x12_i16x2};

verus! {

/// Number of leg servos.
pub const LEG_SERVOS: usize = 12;

/// Number of units on the board: the leg servos, then the two motors.
pub const LEG_UNITS: usize = 14;

/// The units of the legs board.
pub struct LegsUnit {
    servos: Vec<Servo>,
    bldc1: BLDC,
    bldc2: BLDC,
}

impl View for LegsUnit {
    /// The states of the fourteen units: servos 1 to 12, then motors 1 and 2.
    type V = Seq<OutputState>;

    closed spec fn view(&self) -> Seq<OutputState> {
        self.servos@.map_values(|s: Servo| s@).push(self.bldc1@).push(self.bldc2@)
    }
}

/// The duty each unit writes for a command: servo `i` for angle `angles[i]`, then each motor
/// for its power.
pub open spec fn legs_writes(s: Seq<OutputState>, angles: Seq<u16>, powers: Seq<i16>) -> Seq<Option<u32>> {
    Seq::new(
        14,
        |i: int|
            if i < 12 {
                servo_write(s[i], angles[i] as int)
            } else {
                bldc_write(s[i], powers[i - 12] as int)
            },
    )
}

/// The command a received packet carries, if it is a legs-board command.
pub open spec fn legs_packet_command(packet: Option<&[u8]>) -> Option<(Seq<u16>, Seq<i16>)> {
    match packet {
        Some(p) => postcard_u16x12_i16x2(p@),
        None => None,
    }
}

impl LegsUnit {
    /// The board holds twelve servos.
    pub closed spec fn wf(&self) -> bool {
        self.servos@.len() == 12
    }

    /// A well-formed board has exactly fourteen units in its view.
    pub proof fn lemma_wf_len(&self)
        requires
            self.wf(),
        ensures
            self@.len() == 14,
    {
    }

    /// Fourteen units, none set up.
    pub fn new() -> (u: LegsUnit)
        ensures
            u.wf(),
            u@.len() == 14,
            forall|i: int| 0 <= i < 14 ==> #[trigger] u@[i] == fresh(),
    {
        LegsUnit { servos: fresh_servos(LEG_SERVOS), bldc1: BLDC::new(), bldc2: BLDC::new() }
    }

    /// The state of unit `k` (servos 0 ..= 11, motors 12 and 13).
    pub fn unit_state(&self, k: usize) -> (s: OutputState)
        requires
            self.wf(),
            k < 14,
        ensures
            s == self@[k as int],
    {
        if k < LEG_SERVOS {
            self.servos[k].state()
        } else if k == LEG_SERVOS {
            self.bldc1.state()
        } else {
            self.bldc2.state()
        }
    }

    /// Gives up the channel of unit `k`, returning the duty to write to it first.
    pub fn release_unit(&mut self, k: usize) -> (w: Option<u32>)
        requires
            old(self).wf(),
            k < 14,
        ensures
            final(self).wf(),
            final(self)@ == old(self)@.update(k as int, released(old(self)@[k as int])),
            w == release_write(old(self)@[k as int]),
    {
        let w = if k < LEG_SERVOS {
            release_one(&mut self.servos, k)
        } else if k == LEG_SERVOS {
            self.bldc1.release_channel()
        } else {
            self.bldc2.release_channel()
        };
        assert(self@ =~= old(self)@.update(k as int, released(old(self)@[k as int])));
        w
    }

    /// Sets unit `k` up on a new channel whose creation reported `created`.
    pub fn setup_unit(&mut self, k: usize, created: Result<u32, DriverError>) -> (out: SetupOutcome)
        requires
            old(self).wf(),
            k < 14,
        ensures
            final(self).wf(),
            final(self)@ == old(self)@.update(k as int, after_setup(old(self)@[k as int], created)),
            out == setup_outcome(old(self)@[k as int], created),
    {
        let out = if k < LEG_SERVOS {
            setup_one(&mut self.servos, k, created)
        } else if k == LEG_SERVOS {
            self.bldc1.setup(created)
        } else {
            self.bldc2.setup(created)
        };
        assert(self@ =~= old(self)@.update(k as int, after_setup(old(self)@[k as int], created)));
        out
    }

    /// The duty each unit writes for the command, in unit order.
    pub fn set_units(&self, command: &LegsCommand) -> (w: Vec<Option<u32>>)
        requires
            self.wf(),
        ensures
            w@ == legs_writes(self@, command.servo@, command.bldc@),
    {
        let mut w = set_all(&self.servos, command.servo.as_slice());
        w.push(self.bldc1.set(command.bldc[0]));
        w.push(self.bldc2.set(command.bldc[1]));
        assert(w@ =~= legs_writes(self@, command.servo@, command.bldc@));
        w
    }

    /// Attaches all fourteen units.
    pub fn attach_units(&mut self)
        requires
            old(self).wf(),
        ensures
            final(self).wf(),
            final(self)@ == all_attached(old(self)@),
    {
        attach_all(&mut self.servos);
        self.bldc1.attach();
        self.bldc2.attach();
        assert(self@ =~= all_attached(old(self)@));
    }

    /// Detaches all fourteen units, returning the duty each one writes, in unit order.
    pub fn detach_units(&mut self) -> (w: Vec<Option<u32>>)
        requires
            old(self).wf(),
        ensures
            final(self).wf(),
            final(self)@ == all_detached(old(self)@),
            w@ == detach_writes(old(self)@),
    {
        let mut w = detach_all(&mut self.servos);
        w.push(self.bldc1.detach());
        w.push(self.bldc2.detach());
        assert(self@ =~= all_detached(old(self)@));
        assert(w@ =~= detach_writes(old(self)@));
        w
    }

    /// One pass of the board's UDP control loop: the received packet, if it decodes, sets the
    /// units; then a pending attach request attaches them; then a pending detach request
    /// detaches them.
    pub fn control_cycle(&mut self, packet: Option<&[u8]>, attach_requested: bool, detach_requested: bool) -> (r: CycleReport)
        requires
            old(self).wf(),
        ensures
            final(self).wf(),
            final(self)@ == after_requests(old(self)@, attach_requested, detach_requested),
            !attach_requested && !detach_requested ==> final(self)@ == old(self)@,
            attach_requested && !detach_requested ==> final(self)@.len() == old(self)@.len()
                && forall|i: int| 0 <= i < old(self)@.len() ==> #[trigger] final(self)@[i] == (OutputState {
                    channel: old(self)@[i].channel,
                    attached: true,
                }),
            r.command_writes is Some <==> legs_packet_command(packet) is Some,
            legs_packet_command(packet) matches Some(c)
                ==> r.command_writes.unwrap()@ == legs_writes(old(self)@, c.0, c.1),
            r.attach_served == attach_requested,
            r.detach_writes is Some <==> detach_requested,
            detach_requested ==> r.detach_writes.unwrap()@ == detach_writes(
                if attach_requested { all_attached(old(self)@) } else { old(self)@ },
            ),
    {
        let command_writes = match packet {
            Some(bytes) => match decode_legs_command(bytes) {
                Some(command) => Some(self.set_units(&command)),
                None => None,
            },
            None => None,
        };
        if attach_requested {
            self.attach_units();
        }
        let detach_writes = if detach_requested {
            Some(self.detach_units())
        } else {
            None
        };
        CycleReport { command_writes, attach_served: attach_requested, detach_writes }
    }
}

} // verus!
