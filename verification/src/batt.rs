//! The battery board: four servos driven by angle commands received over UDP.
use vstd::prelude::*;
use crate::bank::{
    fresh_servos, attach_all, detach_all, set_all, release_one, setup_one, all_attached,
    all_detached, detach_writes, servo_writes, after_requests, CycleReport,
};
use crate::output::{OutputState, DriverError, SetupOutcome, fresh, released, release_write, after_setup, setup_outcome};
use crate::servo::Servo;
use crate::types::BattCommand;
use crate::wire::{decode_batt_command, postcard_u16x4};

verus! {

/// The four servos of the battery board, in command order.
pub struct BattServo {
    servos: Vec<Servo>,
}

impl View for BattServo {
    type V = Seq<OutputState>;

    closed spec fn view(&self) -> Seq<OutputState> {
        self.servos@.map_values(|s: Servo| s@)
    }
}

/// The angles a received packet commands, if it is a battery-board command.
pub open spec fn batt_packet_angles(packet: Option<&[u8]>) -> Option<Seq<u16>> {
    match packet {
        Some(p) => postcard_u16x4(p@),
        None => None,
    }
}

impl BattServo {
    /// The board holds exactly four servos.
    pub closed spec fn wf(&self) -> bool {
        self.servos@.len() == 4
    }

    /// A well-formed board has exactly four servos in its view.
    pub proof fn lemma_wf_len(&self)
        requires
            self.wf(),
        ensures
            self@.len() == 4,
    {
    }

    /// Four servos, none set up.
    pub fn new() -> (b: BattServo)
        ensures
            b.wf(),
            b@ == seq![fresh(), fresh(), fresh(), fresh()],
    {
        let b = BattServo { servos: fresh_servos(4) };
        assert(b@ =~= seq![fresh(), fresh(), fresh(), fresh()]);
        b
    }

    /// The state of servo `k`.
    pub fn servo_state(&self, k: usize) -> (s: OutputState)
        requires
            self.wf(),
            k < 4,
        ensures
            s == self@[k as int],
    {
        self.servos[k].state()
    }

    /// Gives up the channel of servo `k`, returning the duty to write to it first.
    pub fn release_servo(&mut self, k: usize) -> (w: Option<u32>)
        requires
            old(self).wf(),
            k < 4,
        ensures
            final(self).wf(),
            final(self)@ == old(self)@.update(k as int, released(old(self)@[k as int])),
            w == release_write(old(self)@[k as int]),
    {
        let w = release_one(&mut self.servos, k);
        assert(self@ =~= old(self)@.update(k as int, released(old(self)@[k as int])));
        w
    }

    /// Sets servo `k` up on a new channel whose creation reported `created`.
    pub fn setup_servo(&mut self, k: usize, created: Result<u32, DriverError>) -> (out: SetupOutcome)
        requires
            old(self).wf(),
            k < 4,
        ensures
            final(self).wf(),
            final(self)@ == old(self)@.update(k as int, after_setup(old(self)@[k as int], created)),
            out == setup_outcome(old(self)@[k as int], created),
    {
        let out = setup_one(&mut self.servos, k, created);
        assert(self@ =~= old(self)@.update(k as int, after_setup(old(self)@[k as int], created)));
        out
    }

    /// The duty each servo writes for the command's angles, in servo order.
    pub fn set_servos_angle(&self, command: &BattCommand) -> (w: Vec<Option<u32>>)
        requires
            self.wf(),
        ensures
            w@ == servo_writes(self@, command.servo@),
    {
        let w = set_all(&self.servos, command.servo.as_slice());
        assert(w@ =~= servo_writes(self@, command.servo@));
        w
    }

    /// Attaches all four servos.
    pub fn attach_servos(&mut self)
        requires
            old(self).wf(),
        ensures
            final(self).wf(),
            final(self)@ == all_attached(old(self)@),
    {
        attach_all(&mut self.servos);
        assert(self@ =~= all_attached(old(self)@));
    }

    /// Detaches all four servos, returning the duty each one writes.
    pub fn detach_servos(&mut self) -> (w: Vec<Option<u32>>)
        requires
            old(self).wf(),
        ensures
            final(self).wf(),
            final(self)@ == all_detached(old(self)@),
            w@ == detach_writes(old(self)@),
    {
        let w = detach_all(&mut self.servos);
        assert(self@ =~= all_detached(old(self)@));
        assert(w@ =~= detach_writes(old(self)@));
        w
    }

    /// One pass of the board's UDP control loop: the received packet, if it decodes, sets the
    /// servo angles; then a pending attach request attaches all servos; then a pending detach
    /// request detaches them.
    pub fn control_cycle(&mut self, packet: Option<&[u8]>, attach_requested: bool, detach_requested: bool) -> (r: CycleReport)
        requires
            old(self).wf(),
        ensures
            final(self).wf(),
            final(self)@ == after_requests(old(self)@, attach_requested, detach_requested),
            !attach_requested && !detach_requested ==> final(self)@ == old(self)@,
            attach_requested && !detach_requested ==> final(self)@.len() == old(self)@.len()
                && forall|i: int| 0 <= i < old(self)@.len() ==> #[trigger] final(self)@[i] == (OutputState {
                    channel: old(self)@[i].channel,
                    attached: true,
                }),
            r.command_writes is Some <==> batt_packet_angles(packet) is Some,
            batt_packet_angles(packet) matches Some(a)
                ==> r.command_writes.unwrap()@ == servo_writes(old(self)@, a),
            r.attach_served == attach_requested,
            r.detach_writes is Some <==> detach_requested,
            detach_requested ==> r.detach_writes.unwrap()@ == detach_writes(
                if attach_requested { all_attached(old(self)@) } else { old(self)@ },
            ),
    {
        let command_writes = match packet {
            Some(bytes) => match decode_batt_command(bytes) {
                Some(command) => Some(self.set_servos_angle(&command)),
                None => None,
            },
            None => None,
        };
        if attach_requested {
            self.attach_servos();
        }
        let detach_writes = if detach_requested {
            Some(self.detach_servos())
        } else {
            None
        };
        CycleReport { command_writes, attach_served: attach_requested, detach_writes }
    }
}

} // verus!
