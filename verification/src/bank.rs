//! Operations on a row of servos, applied one servo after the other.
use vstd::prelude::*;
use crate::output::{OutputState, attached, detached, detach_write, after_setup, setup_outcome, released, release_write, SetupOutcome, DriverError};
use crate::servo::{Servo, servo_write};

verus! {

/// Every unit of the row attached.
pub open spec fn all_attached(s: Seq<OutputState>) -> Seq<OutputState> {
    s.map_values(|x: OutputState| attached(x))
}

/// Every unit of the row detached.
pub open spec fn all_detached(s: Seq<OutputState>) -> Seq<OutputState> {
    s.map_values(|x: OutputState| detached(x))
}

/// The duty each unit of the row writes when detached.
pub open spec fn detach_writes(s: Seq<OutputState>) -> Seq<Option<u32>> {
    s.map_values(|x: OutputState| detach_write(x))
}

/// The duty each servo of the row writes for its angle.
pub open spec fn servo_writes(s: Seq<OutputState>, angles: Seq<u16>) -> Seq<Option<u32>> {
    Seq::new(s.len(), |i: int| servo_write(s[i], angles[i] as int))
}

/// The row after one control cycle's attach and detach requests have been served, attach first.
pub open spec fn after_requests(s: Seq<OutputState>, attach: bool, detach: bool) -> Seq<OutputState> {
    let s1 = if attach { all_attached(s) } else { s };
    if detach { all_detached(s1) } else { s1 }
}

/// What one pass of a board's control loop does, in the order it must be carried out.
///
/// `command_writes` holds, when the received packet decoded to a command, the duty each unit
/// writes for it (the heartbeat is then refreshed); `attach_served` tells that an attach request
/// was served (its flag is to be cleared); `detach_writes` holds, when a detach request was served
/// (its flag is to be cleared), the duty each unit writes as it detaches.
pub struct CycleReport {
    pub command_writes: Option<Vec<Option<u32>>>,
    pub attach_served: bool,
    pub detach_writes: Option<Vec<Option<u32>>>,
}

/// A row of `n` servos that were never set up.
pub fn fresh_servos(n: usize) -> (v: Vec<Servo>)
    ensures
        v@.len() == n,
        forall|i: int| 0 <= i < n ==> #[trigger] v@[i]@ == crate::output::fresh(),
{
    let mut v: Vec<Servo> = Vec::new();
    let mut k: usize = 0;
    while k < n
        invariant
            k <= n,
            v@.len() == k,
            forall|i: int| 0 <= i < k ==> #[trigger] v@[i]@ == crate::output::fresh(),
        decreases n - k,
    {
        v.push(Servo::new());
        k = k + 1;
    }
    v
}

/// Attaches every servo of the row.
pub fn attach_all(v: &mut Vec<Servo>)
    ensures
        final(v)@.len() == old(v)@.len(),
        forall|i: int| 0 <= i < old(v)@.len() ==> #[trigger] final(v)@[i]@ == attached(old(v)@[i]@),
{
    let n = v.len();
    let mut k: usize = 0;
    while k < n
        invariant
            n == old(v)@.len(),
            k <= n,
            v@.len() == n,
            forall|i: int| 0 <= i < k ==> #[trigger] v@[i]@ == attached(old(v)@[i]@),
            forall|i: int| k <= i < n ==> #[trigger] v@[i] == old(v)@[i],
        decreases n - k,
    {
        let mut s = v[k];
        s.attach();
        v.set(k, s);
        k = k + 1;
    }
}

/// Detaches every servo of the row, returning the duty each one writes, in row order.
pub fn detach_all(v: &mut Vec<Servo>) -> (w: Vec<Option<u32>>)
    ensures
        final(v)@.len() == old(v)@.len(),
        w@.len() == old(v)@.len(),
        forall|i: int| 0 <= i < old(v)@.len() ==> #[trigger] final(v)@[i]@ == detached(old(v)@[i]@),
        forall|i: int| 0 <= i < old(v)@.len() ==> #[trigger] w@[i] == detach_write(old(v)@[i]@),
{
    let n = v.len();
    let mut w: Vec<Option<u32>> = Vec::new();
    let mut k: usize = 0;
    while k < n
        invariant
            n == old(v)@.len(),
            k <= n,
            v@.len() == n,
            w@.len() == k,
            forall|i: int| 0 <= i < k ==> #[trigger] v@[i]@ == detached(old(v)@[i]@),
            forall|i: int| 0 <= i < k ==> #[trigger] w@[i] == detach_write(old(v)@[i]@),
            forall|i: int| k <= i < n ==> #[trigger] v@[i] == old(v)@[i],
        decreases n - k,
    {
        let mut s = v[k];
        let d = s.detach();
        v.set(k, s);
        w.push(d);
        k = k + 1;
    }
    w
}

/// The duty each servo of the row writes for its angle, in row order.
pub fn set_all(v: &Vec<Servo>, angles: &[u16]) -> (w: Vec<Option<u32>>)
    requires
        angles@.len() == v@.len(),
    ensures
        w@.len() == v@.len(),
        forall|i: int| 0 <= i < v@.len() ==> #[trigger] w@[i] == servo_write(v@[i]@, angles@[i] as int),
{
    let n = v.len();
    let mut w: Vec<Option<u32>> = Vec::new();
    let mut k: usize = 0;
    while k < n
        invariant
            n == v@.len(),
            n == angles@.len(),
            k <= n,
            w@.len() == k,
            forall|i: int| 0 <= i < k ==> #[trigger] w@[i] == servo_write(v@[i]@, angles@[i] as int),
        decreases n - k,
    {
        w.push(v[k].set(angles[k]));
        k = k + 1;
    }
    w
}

/// Gives up the channel of servo `k` of the row.
pub fn release_one(v: &mut Vec<Servo>, k: usize) -> (w: Option<u32>)
    requires
        k < old(v)@.len(),
    ensures
        final(v)@ == old(v)@.update(k as int, final(v)@[k as int]),
        final(v)@[k as int]@ == released(old(v)@[k as int]@),
        w == release_write(old(v)@[k as int]@),
{
    let mut s = v[k];
    let w = s.release_channel();
    v.set(k, s);
    w
}

/// Sets servo `k` of the row up on a new channel whose creation reported `created`.
pub fn setup_one(v: &mut Vec<Servo>, k: usize, created: Result<u32, DriverError>) -> (out: SetupOutcome)
    requires
        k < old(v)@.len(),
    ensures
        final(v)@ == old(v)@.update(k as int, final(v)@[k as int]),
        final(v)@[k as int]@ == after_setup(old(v)@[k as int]@, created),
        out == setup_outcome(old(v)@[k as int]@, created),
{
    let mut s = v[k];
    let out = s.setup(created);
    v.set(k, s);
    out
}

} // verus!
