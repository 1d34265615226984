//! Matching responses to the calls that wait for them.
//!
//! Every outgoing request is stamped with a fresh slot. The caller keeps the
//! receiving end of a one-shot channel; the multiplexer keeps the sending end
//! under the slot until the response with that slot arrives. A caller whose
//! sending end is dropped without a response finds its channel disconnected:
//! that is how a pending call is cancelled.

use vstd::prelude::*;
use vstd::std_specs::hash::*;
use std::collections::HashMap;
use crossbeam::channel::Receiver;
use crossbeam::channel::Sender;
use crate::error::PortError;
use crate::packet::Packet;
use crate::service::SlotId;

verus! {

/// The sending end of a crossbeam channel, `crossbeam::channel::Sender`.
/// Nothing inside it is visible to the proofs.
#[verifier::external_type_specification]
#[verifier::external_body]
#[verifier::reject_recursive_types(T)]
pub struct ExSender<T>(crossbeam::channel::Sender<T>);

/// The receiving end of a crossbeam channel, `crossbeam::channel::Receiver`.
/// Nothing inside it is visible to the proofs.
#[verifier::external_type_specification]
#[verifier::external_body]
#[verifier::reject_recursive_types(T)]
pub struct ExReceiver<T>(crossbeam::channel::Receiver<T>);

/// Makes the two ends of a channel that holds one packet, by
/// `crossbeam::channel::bounded` with capacity one. Nothing is claimed of the
/// ends.
#[verifier::external_body]
fn one_shot() -> (ends: (Sender<Packet>, Receiver<Packet>)) {
    crossbeam::channel::bounded(1)
}

/// Puts a packet into a channel without blocking, by `Sender::try_send`, and
/// gives the sending end up. The result tells whether the channel took the
/// packet; a channel that is full or whose receiver is gone does not.
/// Nothing is claimed of which it will be.
#[verifier::external_body]
fn complete(sender: Sender<Packet>, packet: Packet) -> (delivered: bool) {
    sender.try_send(packet).is_ok()
}

/// The calls of one port that wait for a response.
pub struct Multiplexer {
    next_slot: SlotId,
    waiters: HashMap<SlotId, Sender<Packet>>,
}

impl Multiplexer {
    /// The slot that the next call gets.
    pub closed spec fn next_slot_id(self) -> SlotId {
        self.next_slot
    }

    /// The sending ends of the waiting calls, by slot.
    pub closed spec fn waiters(self) -> Map<SlotId, Sender<Packet>> {
        self.waiters@
    }

    /// The invariant: finitely many calls wait, each on a slot that was given
    /// out before.
    pub open spec fn wf(self) -> bool {
        &&& self.waiters().dom().finite()
        &&& forall|slot: SlotId| #[trigger]
            self.waiters().contains_key(slot) ==> slot < self.next_slot_id()
    }

    /// A multiplexer on which nobody waits and whose first slot is zero.
    pub fn new() -> (mux: Self)
        ensures
            mux.wf(),
            mux.next_slot_id() == 0,
            mux.waiters() == Map::<SlotId, Sender<Packet>>::empty(),
    {
        Multiplexer { next_slot: 0, waiters: HashMap::new() }
    }

    /// The slot that the next call gets.
    pub fn next_slot(&self) -> (slot: SlotId)
        ensures
            slot == self.next_slot_id(),
    {
        self.next_slot
    }

    /// The number of waiting calls.
    pub fn pending(&self) -> (n: usize)
        ensures
            n == self.waiters().len(),
    {
        broadcast use group_hash_axioms;

        self.waiters.len()
    }

    /// Whether a call waits on `slot`.
    pub fn is_waiting(&self, slot: SlotId) -> (b: bool)
        ensures
            b == self.waiters().contains_key(slot),
    {
        broadcast use group_hash_axioms;

        self.waiters.contains_key(&slot)
    }

    /// Whether another slot can be given out.
    pub fn has_free_slot(&self) -> (b: bool)
        ensures
            b == (self.next_slot_id() < u64::MAX),
    {
        self.next_slot < u64::MAX
    }

    /// Gives out the next slot and keeps a new waiter under it. The caller
    /// gets the slot and the end on which the response will arrive.
    pub fn install_waiter(&mut self) -> (r: (SlotId, Receiver<Packet>))
        requires
            old(self).wf(),
            old(self).next_slot_id() < u64::MAX,
        ensures
            final(self).wf(),
            r.0 == old(self).next_slot_id(),
            final(self).next_slot_id() == old(self).next_slot_id() + 1,
            !old(self).waiters().contains_key(r.0),
            final(self).waiters().contains_key(r.0),
            final(self).waiters().remove(r.0) == old(self).waiters(),
    {
        broadcast use group_hash_axioms;

        let slot = self.next_slot;
        let (sender, receiver) = one_shot();
        self.waiters.insert(slot, sender);
        self.next_slot = slot + 1;
        assert(final(self).waiters().remove(slot) =~= old(self).waiters());
        (slot, receiver)
    }

    /// Takes the waiter of `slot` out, if a call waits on it.
    pub fn take_waiter(&mut self, slot: SlotId) -> (r: Option<Sender<Packet>>)
        requires
            old(self).wf(),
        ensures
            final(self).wf(),
            final(self).next_slot_id() == old(self).next_slot_id(),
            final(self).waiters() == old(self).waiters().remove(slot),
            match r {
                Some(sender) => old(self).waiters().contains_key(slot) && sender == old(
                    self,
                ).waiters()[slot],
                None => !old(self).waiters().contains_key(slot),
            },
    {
        broadcast use group_hash_axioms;

        let taken = self.waiters.remove(&slot);
        assert(final(self).waiters() =~= old(self).waiters().remove(slot));
        taken
    }

    /// Hands a response to the call that waits on `slot` and forgets the
    /// slot. `Ok` tells whether the caller still listened. A slot on which
    /// nobody waits is an error, and nothing changes.
    pub fn resolve(&mut self, slot: SlotId, response: Packet) -> (r: Result<bool, PortError>)
        requires
            old(self).wf(),
        ensures
            final(self).wf(),
            final(self).next_slot_id() == old(self).next_slot_id(),
            final(self).waiters() == old(self).waiters().remove(slot),
            match r {
                Ok(_) => old(self).waiters().contains_key(slot),
                Err(e) => e == PortError::UnknownSlotId && !old(self).waiters().contains_key(
                    slot,
                ),
            },
    {
        match self.take_waiter(slot) {
            Some(sender) => Ok(complete(sender, response)),
            None => Err(PortError::UnknownSlotId),
        }
    }

    /// Drops every waiter, which cancels every waiting call, and returns how
    /// many there were. Slots are not given out again.
    pub fn cancel_all(&mut self) -> (cancelled: usize)
        requires
            old(self).wf(),
        ensures
            final(self).wf(),
            final(self).next_slot_id() == old(self).next_slot_id(),
            final(self).waiters() == Map::<SlotId, Sender<Packet>>::empty(),
            cancelled == old(self).waiters().len(),
    {
        broadcast use group_hash_axioms;

        let cancelled = self.waiters.len();
        self.waiters.clear();
        cancelled
    }
}

} // verus!
