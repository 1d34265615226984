//! What holds of a port over its whole life.
//!
//! A port's life is a run: a sequence of states, each reached from the one
//! before by one event. The laws say what a run cannot do: lose an exported
//! object that the peer still refers to, drop an object twice, hand a slot
//! out twice, or use up the waiter of one call for the response to another.

use vstd::prelude::*;
use std::sync::Arc;
use crate::engine::PortEngine;
use crate::engine::Routed;
use crate::error::PortError;
use crate::export_import::HandleToExchange;
use crate::packet::decode_frame;
use crate::packet::Frame;
use crate::service::ServiceObjectId;
use crate::service::NULL_OBJECT_ID;
use crate::service::SlotId;

verus! {

/// What can happen to a port.
pub enum PortEvent<D: ?Sized> {
    /// A frame arrived and was handed to `handle_frame`.
    Incoming { bytes: Seq<u8> },
    /// A service object was handed to `register_service`.
    Register { object: Arc<D> },
    /// A call was begun by `begin_call`.
    BeginCall,
    /// The port was ended by `close`.
    Close { cause: PortError },
}

/// That `event` takes a port from `before` to `after`, by the contract of
/// the operation that the event stands for.
pub open spec fn step<D: ?Sized>(
    before: PortEngine<D>,
    event: PortEvent<D>,
    after: PortEngine<D>,
) -> bool {
    match event {
        PortEvent::Incoming { bytes } => exists|routed: Routed<D>|
            before.routes(bytes, routed, after),
        PortEvent::Register { object } => exists|r: Result<HandleToExchange, PortError>|
            before.registers(object, r, after),
        PortEvent::BeginCall => before.cause() is Some && before.same_as(after) || before.begins(
            before.next_slot_id(),
            after,
        ),
        PortEvent::Close { cause } => before.closes(cause, after),
    }
}

/// That the states are a run under the events: one more state than events,
/// and each event takes its state to the next.
pub open spec fn is_run<D: ?Sized>(states: Seq<PortEngine<D>>, events: Seq<PortEvent<D>>) -> bool {
    &&& states.len() == events.len() + 1
    &&& forall|i: int| 0 <= i < events.len() ==> #[trigger] step(states[i], events[i], states[i + 1])
}

/// That the event is a delete frame for the object `id`.
pub open spec fn deletes<D: ?Sized>(event: PortEvent<D>, id: ServiceObjectId) -> bool {
    event matches PortEvent::Incoming { bytes } && decode_frame(bytes) == Some(
        Frame::Delete { object_id: id },
    )
}

/// That the event is a response frame for the slot `slot`.
pub open spec fn answers<D: ?Sized>(event: PortEvent<D>, slot: SlotId) -> bool {
    event matches PortEvent::Incoming { bytes } && decode_frame(bytes) matches Some(
        Frame::Response { slot: s, .. },
    ) && s == slot
}

/// A port that is down stays down, by the same error.
pub proof fn lemma_down_stays_down<D: ?Sized>(
    before: PortEngine<D>,
    event: PortEvent<D>,
    after: PortEngine<D>,
)
    requires
        step(before, event, after),
        before.cause() is Some,
    ensures
        after.cause() == before.cause(),
        before.same_as(after),
{
}

/// One event leaves an exported object where it is, under its id, unless
/// the event is the peer's delete for that id or the port goes down.
pub proof fn lemma_step_keeps_object<D: ?Sized>(
    before: PortEngine<D>,
    event: PortEvent<D>,
    after: PortEngine<D>,
    id: ServiceObjectId,
)
    requires
        step(before, event, after),
        before.objects().contains_key(id),
        after.cause() is None,
        !deletes(event, id),
    ensures
        after.objects().contains_key(id),
        after.objects()[id] == before.objects()[id],
{
}

/// The peer's delete for an exported object takes exactly that object out:
/// the port stays up, the id names nothing any more, and every other object
/// stays under its id.
pub proof fn lemma_delete_drops_object<D: ?Sized>(
    before: PortEngine<D>,
    event: PortEvent<D>,
    after: PortEngine<D>,
    id: ServiceObjectId,
)
    requires
        step(before, event, after),
        before.cause() is None,
        before.objects().contains_key(id),
        deletes(event, id),
    ensures
        after.cause() is None,
        after.objects() == before.objects().remove(id),
        after.table().spec_len() == before.table().spec_len() - 1,
{
}

/// Deletes are one-shot: a second delete for an id that was deleted, with
/// nothing exported in between, is a protocol error and takes the port
/// down.
pub proof fn lemma_second_delete_is_fatal<D: ?Sized>(
    before: PortEngine<D>,
    first: PortEvent<D>,
    between: PortEngine<D>,
    second: PortEvent<D>,
    after: PortEngine<D>,
    id: ServiceObjectId,
)
    requires
        step(before, first, between),
        step(between, second, after),
        before.cause() is None,
        before.objects().contains_key(id),
        deletes(first, id),
        deletes(second, id),
    ensures
        after.cause() == Some(PortError::UnknownObjectId),
{
    lemma_delete_drops_object(before, first, between, id);
}

/// An exported object has one entry, and keeps it for as long as the port
/// is up and the peer has not sent the delete for its id: in a run whose
/// first state holds an object under `id`, whose states are all up, and none
/// of whose events is a delete for `id`, every state holds that object under
/// `id`.
pub proof fn lemma_object_lives_until_deleted<D: ?Sized>(
    states: Seq<PortEngine<D>>,
    events: Seq<PortEvent<D>>,
    id: ServiceObjectId,
)
    requires
        is_run(states, events),
        states[0].objects().contains_key(id),
        forall|i: int| 0 <= i < states.len() ==> (#[trigger] states[i]).cause() is None,
        forall|i: int| 0 <= i < events.len() ==> !deletes(#[trigger] events[i], id),
    ensures
        forall|i: int|
            0 <= i < states.len() ==> (#[trigger] states[i]).objects().contains_key(id)
                && states[i].objects()[id] == states[0].objects()[id],
    decreases events.len(),
{
    if events.len() > 0 {
        let n = events.len() as int;
        let shorter_states = states.drop_last();
        let shorter_events = events.drop_last();
        assert(is_run(shorter_states, shorter_events)) by {
            assert forall|i: int| 0 <= i < shorter_events.len() implies #[trigger] step(
                shorter_states[i],
                shorter_events[i],
                shorter_states[i + 1],
            ) by {
                assert(step(states[i], events[i], states[i + 1]));
            }
        }
        assert forall|i: int| 0 <= i < shorter_states.len() implies (
        #[trigger] shorter_states[i]).cause() is None by {
            assert(states[i].cause() is None);
        }
        assert forall|i: int| 0 <= i < shorter_events.len() implies !deletes(
            #[trigger] shorter_events[i],
            id,
        ) by {
            assert(!deletes(events[i], id));
        }
        lemma_object_lives_until_deleted(shorter_states, shorter_events, id);
        assert(shorter_states[n - 1].objects().contains_key(id));
        assert(step(states[n - 1], events[n - 1], states[n]));
        assert(states[n].cause() is None);
        assert(!deletes(events[n - 1], id));
        lemma_step_keeps_object(states[n - 1], events[n - 1], states[n], id);
        assert forall|i: int| 0 <= i < states.len() implies (
        #[trigger] states[i]).objects().contains_key(id) && states[i].objects()[id]
            == states[0].objects()[id] by {
            if i < n {
                assert(shorter_states[i].objects().contains_key(id));
            }
        }
    }
}

/// Exporting gives the object exactly one entry: it stands under the handle
/// that was returned, that handle named nothing before, and every other
/// entry is as it was.
pub proof fn lemma_export_makes_one_entry<D: ?Sized>(
    before: PortEngine<D>,
    object: Arc<D>,
    handle: HandleToExchange,
    after: PortEngine<D>,
)
    requires
        before.registers(object, Ok(handle), after),
    ensures
        before.cause() is None,
        handle.0 != NULL_OBJECT_ID,
        !before.objects().contains_key(handle.0),
        after.objects() == before.objects().insert(handle.0, object),
        forall|id: ServiceObjectId|
            id != handle.0 ==> (#[trigger] after.objects().contains_key(id)
                <==> before.objects().contains_key(id)),
        after.table().spec_len() == before.table().spec_len() + 1,
{
}

/// One event never lowers the next slot, and a call that is begun on a live
/// port raises it by one.
pub proof fn lemma_step_keeps_slot_order<D: ?Sized>(
    before: PortEngine<D>,
    event: PortEvent<D>,
    after: PortEngine<D>,
)
    requires
        step(before, event, after),
    ensures
        before.next_slot_id() <= after.next_slot_id(),
        event is BeginCall && before.cause() is None ==> after.next_slot_id()
            == before.next_slot_id() + 1,
{
}

/// Over a run the next slot never goes down.
pub proof fn lemma_run_keeps_slot_order<D: ?Sized>(
    states: Seq<PortEngine<D>>,
    events: Seq<PortEvent<D>>,
    i: int,
    j: int,
)
    requires
        is_run(states, events),
        0 <= i <= j < states.len(),
    ensures
        states[i].next_slot_id() <= states[j].next_slot_id(),
    decreases j - i,
{
    if i < j {
        let k = j - 1;
        lemma_run_keeps_slot_order(states, events, i, k);
        assert(step(states[k], events[k], states[k + 1]));
        lemma_step_keeps_slot_order(states[k], events[k], states[k + 1]);
    }
}

/// No slot is given out twice: two calls begun on a live port at different
/// points of a run get different slots, the later the larger.
pub proof fn lemma_slots_are_distinct<D: ?Sized>(
    states: Seq<PortEngine<D>>,
    events: Seq<PortEvent<D>>,
    i: int,
    j: int,
)
    requires
        is_run(states, events),
        0 <= i < j < events.len(),
        events[i] is BeginCall,
        events[j] is BeginCall,
        states[i].cause() is None,
        states[j].cause() is None,
    ensures
        states[i].next_slot_id() < states[j].next_slot_id(),
{
    assert(step(states[i], events[i], states[i + 1]));
    lemma_step_keeps_slot_order(states[i], events[i], states[i + 1]);
    lemma_run_keeps_slot_order(states, events, i + 1, j);
}

/// One event leaves a waiting call where it is, under its slot and with its
/// own channel, unless the event is the response for that slot or the port
/// goes down.
pub proof fn lemma_step_keeps_waiter<D: ?Sized>(
    before: PortEngine<D>,
    event: PortEvent<D>,
    after: PortEngine<D>,
    slot: SlotId,
)
    requires
        step(before, event, after),
        before.waiters().contains_key(slot),
        after.cause() is None,
        !answers(event, slot),
    ensures
        after.waiters().contains_key(slot),
        after.waiters()[slot] == before.waiters()[slot],
{
    match event {
        PortEvent::BeginCall => {
            if before.cause() is None {
                let given = before.next_slot_id();
                assert(after.waiters().remove(given).contains_key(slot));
                assert(after.waiters().remove(given)[slot] == before.waiters()[slot]);
            }
        },
        _ => {},
    }
}

/// The response for a slot goes to the call that waits on that slot and to
/// no other: the waiter of that slot is taken out to be handed the response,
/// and every other waiting call stays under its slot with its own channel.
pub proof fn lemma_response_takes_its_waiter<D: ?Sized>(
    before: PortEngine<D>,
    event: PortEvent<D>,
    after: PortEngine<D>,
    slot: SlotId,
)
    requires
        step(before, event, after),
        before.cause() is None,
        before.waiters().contains_key(slot),
        answers(event, slot),
    ensures
        after.cause() is None,
        after.waiters() == before.waiters().remove(slot),
        forall|other: SlotId|
            other != slot && before.waiters().contains_key(other) ==> (
            #[trigger] after.waiters().contains_key(other)) && after.waiters()[other]
                == before.waiters()[other],
{
}

/// Slot discipline under any interleaving: in a run whose first state has a
/// call waiting on `slot`, whose states are all up, and none of whose events
/// is the response for `slot`, the call still waits in every state, under
/// its slot and with its own channel, whatever other calls were begun and
/// answered in between.
pub proof fn lemma_call_waits_until_answered<D: ?Sized>(
    states: Seq<PortEngine<D>>,
    events: Seq<PortEvent<D>>,
    slot: SlotId,
)
    requires
        is_run(states, events),
        states[0].waiters().contains_key(slot),
        forall|i: int| 0 <= i < states.len() ==> (#[trigger] states[i]).cause() is None,
        forall|i: int| 0 <= i < events.len() ==> !answers(#[trigger] events[i], slot),
    ensures
        forall|i: int|
            0 <= i < states.len() ==> (#[trigger] states[i]).waiters().contains_key(slot)
                && states[i].waiters()[slot] == states[0].waiters()[slot],
    decreases events.len(),
{
    if events.len() > 0 {
        let n = events.len() as int;
        let shorter_states = states.drop_last();
        let shorter_events = events.drop_last();
        assert(is_run(shorter_states, shorter_events)) by {
            assert forall|i: int| 0 <= i < shorter_events.len() implies #[trigger] step(
                shorter_states[i],
                shorter_events[i],
                shorter_states[i + 1],
            ) by {
                assert(step(states[i], events[i], states[i + 1]));
            }
        }
        assert forall|i: int| 0 <= i < shorter_states.len() implies (
        #[trigger] shorter_states[i]).cause() is None by {
            assert(states[i].cause() is None);
        }
        assert forall|i: int| 0 <= i < shorter_events.len() implies !answers(
            #[trigger] shorter_events[i],
            slot,
        ) by {
            assert(!answers(events[i], slot));
        }
        lemma_call_waits_until_answered(shorter_states, shorter_events, slot);
        assert(shorter_states[n - 1].waiters().contains_key(slot));
        assert(step(states[n - 1], events[n - 1], states[n]));
        assert(states[n].cause() is None);
        assert(!answers(events[n - 1], slot));
        lemma_step_keeps_waiter(states[n - 1], events[n - 1], states[n], slot);
        assert forall|i: int| 0 <= i < states.len() implies (
        #[trigger] states[i]).waiters().contains_key(slot) && states[i].waiters()[slot]
            == states[0].waiters()[slot] by {
            if i < n {
                assert(shorter_states[i].waiters().contains_key(slot));
            }
        }
    }
}

} // verus!
