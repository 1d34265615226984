//! The port engine: one object table, one multiplexer, and the rules by which
//! a port answers what arrives.
//!
//! The engine decides and never waits. The program around it reads frames
//! from the transport and hands them to `handle_frame`; it runs dispatchers
//! on the shares that the engine hands out, and writes the frames that the
//! engine makes. A protocol error tears the port down: its objects are
//! dropped, its waiting calls are cancelled, and every later operation is
//! answered with the error that ended it.

use vstd::prelude::*;
use vstd::slice::*;
use std::sync::Arc;
use crossbeam::channel::Receiver;
use crossbeam::channel::Sender;
use crate::dispatch::delete;
use crate::dispatch::register;
use crate::dispatch::PortDispatcher;
use crate::error::PortError;
use crate::export_import::HandleToExchange;
use crate::multiplexer::Multiplexer;
use crate::packet::decode_frame;
use crate::packet::encode_frame;
use crate::packet::Frame;
use crate::packet::Packet;
use crate::packet::PacketKind;
use crate::packet::PacketView;
use crate::service::MethodId;
use crate::service::PortId;
use crate::service::ServiceDispatcher;
use crate::service::ServiceObjectId;
use crate::service::SlotId;
use crate::table::ObjectTable;
use crate::table::MAX_OBJECTS;

verus! {

/// What the engine made of an incoming frame.
pub enum Routed<D: ?Sized> {
    /// A request to serve: run `method` of `object` on `arguments`, outside
    /// any lock on the engine, and answer under `slot`.
    Request { slot: SlotId, object: Arc<D>, method: MethodId, arguments: Vec<u8> },
    /// A response was handed to the call that waited on `slot`; `delivered`
    /// tells whether the caller still listened.
    Response { slot: SlotId, delivered: bool },
    /// The peer let go of the object `object_id`, which was dropped.
    Delete { object_id: ServiceObjectId },
    /// The port is down, by this error.
    Fatal(PortError),
}

/// The state of one port.
pub struct PortEngine<D: ?Sized> {
    dispatcher: PortDispatcher<D>,
    multiplexer: Multiplexer,
    closed: Option<PortError>,
}

/// The response to a request that was sent under `slot`, from what the
/// object's dispatcher gave: its bytes as the payload, or the error for a
/// method that the object does not have.
pub fn answer(slot: SlotId, outcome: Option<Vec<u8>>) -> (r: Result<Packet, PortError>)
    ensures
        match outcome {
            Some(bytes) => r is Ok && r->Ok_0.frame() == (Frame::Response {
                slot,
                payload: bytes@,
            }) && r->Ok_0.bytes() == encode_frame(r->Ok_0.frame()),
            None => r == Err::<Packet, PortError>(PortError::UnknownMethodId),
        },
{
    match outcome {
        Some(bytes) => Ok(Packet::new_response(slot, bytes.as_slice())),
        None => Err(PortError::UnknownMethodId),
    }
}

/// Serves one request: runs `method` of `object` on `arguments` and wraps
/// what the dispatcher gave into the response for `slot`.
pub fn serve<D: ?Sized + ServiceDispatcher>(
    object: &Arc<D>,
    slot: SlotId,
    method: MethodId,
    arguments: &[u8],
) -> (r: Result<Packet, PortError>)
    ensures
        exists|outcome: Option<Vec<u8>>|
            call_ensures(D::dispatch, (&**object, method, arguments), outcome) && match outcome {
                Some(bytes) => r is Ok && r->Ok_0.frame() == (Frame::Response {
                    slot,
                    payload: bytes@,
                }) && r->Ok_0.bytes() == encode_frame(r->Ok_0.frame()),
                None => r == Err::<Packet, PortError>(PortError::UnknownMethodId),
            },
{
    let outcome = object.dispatch(method, arguments);
    answer(slot, outcome)
}

impl<D: ?Sized> PortEngine<D> {
    /// The exported objects and the port's id.
    pub closed spec fn dispatcher(self) -> PortDispatcher<D> {
        self.dispatcher
    }

    /// The waiting calls and the next slot.
    pub closed spec fn multiplexer(self) -> Multiplexer {
        self.multiplexer
    }

    /// The error that ended the port, if the port is down.
    pub closed spec fn cause(self) -> Option<PortError> {
        self.closed
    }

    /// The table of the exported objects.
    pub open spec fn table(self) -> ObjectTable<Arc<D>> {
        self.dispatcher().table()
    }

    /// The exported objects, by id.
    pub open spec fn objects(self) -> Map<ServiceObjectId, Arc<D>> {
        self.table()@
    }

    /// The sending ends of the waiting calls, by slot.
    pub open spec fn waiters(self) -> Map<SlotId, Sender<Packet>> {
        self.multiplexer().waiters()
    }

    /// The slot that the next call gets.
    pub open spec fn next_slot_id(self) -> SlotId {
        self.multiplexer().next_slot_id()
    }

    /// The invariant: table and multiplexer are well-formed, and a port that
    /// is down holds no object and no waiting call.
    pub open spec fn wf(self) -> bool {
        &&& self.dispatcher().wf()
        &&& self.multiplexer().wf()
        &&& self.cause() is Some ==> self.table().is_fresh() && self.waiters() == Map::<
            SlotId,
            Sender<Packet>,
        >::empty()
    }

    /// That `after` differs from the port in nothing that this module
    /// speaks of.
    pub open spec fn same_as(self, after: Self) -> bool {
        &&& self.table().unchanged(after.table())
        &&& after.dispatcher().spec_id() == self.dispatcher().spec_id()
        &&& after.waiters() == self.waiters()
        &&& after.next_slot_id() == self.next_slot_id()
        &&& after.cause() == self.cause()
    }

    /// That `after` is the port torn down by `cause`: no object, no waiting
    /// call, and the slots that were given out stay given out.
    pub open spec fn torn_down(self, after: Self, cause: PortError) -> bool {
        &&& after.cause() == Some(cause)
        &&& after.table().is_fresh()
        &&& after.table().spec_capacity() == self.table().spec_capacity()
        &&& after.dispatcher().spec_id() == self.dispatcher().spec_id()
        &&& after.waiters() == Map::<SlotId, Sender<Packet>>::empty()
        &&& after.next_slot_id() == self.next_slot_id()
    }

    /// That `after` differs from the port only in its table.
    pub open spec fn same_but_table(self, after: Self) -> bool {
        &&& after.dispatcher().spec_id() == self.dispatcher().spec_id()
        &&& after.waiters() == self.waiters()
        &&& after.next_slot_id() == self.next_slot_id()
        &&& after.cause() == self.cause()
    }

    /// How a port answers a service object to export: `r` is what it hands
    /// back and `after` is the port then.
    ///
    /// A port that is down answers with the error that ended it. A live
    /// port with room puts the object under the id that was next. A live
    /// port without room is torn down by `PortError::TableFull`.
    pub open spec fn registers(
        self,
        service_object: Arc<D>,
        r: Result<HandleToExchange, PortError>,
        after: Self,
    ) -> bool {
        match self.cause() {
            Some(cause) => r == Err::<HandleToExchange, PortError>(cause) && self.same_as(after),
            None => match r {
                Ok(handle) => {
                    &&& self.table().created(after.table(), handle.0, service_object)
                    &&& self.same_but_table(after)
                },
                Err(e) => {
                    &&& e == PortError::TableFull
                    &&& self.table().spec_len() == self.table().spec_capacity()
                    &&& self.torn_down(after, PortError::TableFull)
                },
            },
        }
    }

    /// How a live port begins a call: `slot`, the slot that was next, is
    /// given out, a waiter is kept under it, and nothing else changes.
    pub open spec fn begins(self, slot: SlotId, after: Self) -> bool {
        &&& self.cause() is None
        &&& slot == self.next_slot_id()
        &&& after.next_slot_id() == slot + 1
        &&& !self.waiters().contains_key(slot)
        &&& after.waiters().contains_key(slot)
        &&& after.waiters().remove(slot) == self.waiters()
        &&& self.table().unchanged(after.table())
        &&& after.dispatcher().spec_id() == self.dispatcher().spec_id()
        &&& after.cause() is None
    }

    /// How a port ends: a live port is torn down by `cause`; a port that is
    /// down already stays as it is.
    pub open spec fn closes(self, cause: PortError, after: Self) -> bool {
        match self.cause() {
            Some(_) => self.same_as(after),
            None => self.torn_down(after, cause),
        }
    }

    /// How a port answers the bytes of one incoming frame: `routed` is what
    /// it hands back and `after` is the port then.
    ///
    /// A port that is down answers with the error that ended it. Bytes that
    /// hold no frame, a request or a delete for an object that the table
    /// lacks, and a response for a slot on which nobody waits tear the port
    /// down. A request changes nothing; a response takes its waiter out; a
    /// delete takes its object out.
    pub open spec fn routes(self, bytes: Seq<u8>, routed: Routed<D>, after: Self) -> bool {
        if self.cause() is Some {
            routed == Routed::<D>::Fatal(self.cause()->Some_0) && self.same_as(after)
        } else {
            match decode_frame(bytes) {
                None => routed == Routed::<D>::Fatal(PortError::MalformedFrame) && self.torn_down(
                    after,
                    PortError::MalformedFrame,
                ),
                Some(Frame::Request { slot, object_id, method, payload }) => {
                    if self.objects().contains_key(object_id) {
                        &&& routed matches Routed::Request {
                            slot: s,
                            object: o,
                            method: m,
                            arguments: a,
                        }
                        &&& s == slot
                        &&& o == self.objects()[object_id]
                        &&& m == method
                        &&& a@ == payload
                        &&& self.same_as(after)
                    } else {
                        routed == Routed::<D>::Fatal(PortError::UnknownObjectId)
                            && self.torn_down(after, PortError::UnknownObjectId)
                    }
                },
                Some(Frame::Response { slot, payload }) => {
                    if self.waiters().contains_key(slot) {
                        &&& routed matches Routed::Response { slot: s, delivered: d }
                        &&& s == slot
                        &&& self.table().unchanged(after.table())
                        &&& after.dispatcher().spec_id() == self.dispatcher().spec_id()
                        &&& after.waiters() == self.waiters().remove(slot)
                        &&& after.next_slot_id() == self.next_slot_id()
                        &&& after.cause() is None
                    } else {
                        routed == Routed::<D>::Fatal(PortError::UnknownSlotId) && self.torn_down(
                            after,
                            PortError::UnknownSlotId,
                        )
                    }
                },
                Some(Frame::Delete { object_id }) => {
                    if self.objects().contains_key(object_id) {
                        &&& routed == Routed::<D>::Delete { object_id }
                        &&& self.table().removed(after.table(), object_id)
                        &&& self.same_but_table(after)
                    } else {
                        routed == Routed::<D>::Fatal(PortError::UnknownObjectId)
                            && self.torn_down(after, PortError::UnknownObjectId)
                    }
                },
            }
        }
    }

    /// A live port with the id `id`, room for `size` objects, and nothing
    /// exported or awaited.
    pub fn new(id: PortId, size: usize) -> (port: Self)
        requires
            size <= MAX_OBJECTS,
        ensures
            port.wf(),
            port.cause() is None,
            port.dispatcher().spec_id() == id,
            port.table().is_fresh(),
            port.table().spec_capacity() == size,
            port.waiters() == Map::<SlotId, Sender<Packet>>::empty(),
            port.next_slot_id() == 0,
    {
        PortEngine {
            dispatcher: PortDispatcher::new(id, size),
            multiplexer: Multiplexer::new(),
            closed: None,
        }
    }

    /// The id of the port.
    pub fn get_id(&self) -> (id: PortId)
        ensures
            id == self.dispatcher().spec_id(),
    {
        self.dispatcher.get_id()
    }

    /// Whether the port is up.
    pub fn is_alive(&self) -> (b: bool)
        ensures
            b == (self.cause() is None),
    {
        self.closed.is_none()
    }

    /// The error that ended the port, if the port is down.
    pub fn closed_by(&self) -> (cause: Option<PortError>)
        ensures
            cause == self.cause(),
    {
        self.closed
    }

    /// The number of exported objects.
    pub fn object_count(&self) -> (n: usize)
        requires
            self.wf(),
        ensures
            n == self.table().spec_len(),
    {
        self.dispatcher.object_count()
    }

    /// Whether `id` names an exported object.
    pub fn has_object(&self, id: ServiceObjectId) -> (b: bool)
        ensures
            b == self.objects().contains_key(id),
    {
        self.dispatcher.contains(id)
    }

    /// The number of waiting calls.
    pub fn pending_calls(&self) -> (n: usize)
        ensures
            n == self.waiters().len(),
    {
        self.multiplexer.pending()
    }

    /// The slot that the next call gets.
    pub fn next_slot(&self) -> (slot: SlotId)
        ensures
            slot == self.next_slot_id(),
    {
        self.multiplexer.next_slot()
    }

    /// Whether the port has a slot left for another call.
    pub fn can_call(&self) -> (b: bool)
        ensures
            b == (self.next_slot_id() < u64::MAX),
    {
        self.multiplexer.has_free_slot()
    }

    /// Tears the port down.
    fn tear_down(&mut self, cause: PortError)
        requires
            old(self).wf(),
        ensures
            final(self).wf(),
            old(self).torn_down(*final(self), cause),
    {
        self.dispatcher.clear();
        self.multiplexer.cancel_all();
        self.closed = Some(cause);
    }

    /// Ends the port: by `PortError::TransportClosed` when the transport
    /// reported its end, by `PortError::Cancelled` when the context is torn
    /// down. Every object is dropped and every waiting call is cancelled;
    /// the result is the number of calls that were cancelled. A port that is
    /// down already stays as it is.
    pub fn close(&mut self, cause: PortError) -> (cancelled: usize)
        requires
            old(self).wf(),
        ensures
            final(self).wf(),
            old(self).closes(cause, *final(self)),
            cancelled == if old(self).cause() is Some {
                0
            } else {
                old(self).waiters().len()
            },
    {
        if self.closed.is_some() {
            return 0;
        }
        let cancelled = self.multiplexer.pending();
        self.tear_down(cause);
        cancelled
    }

    /// Exports a service object and returns its handle.
    ///
    /// On a live port with room the object gets the id that the table gives
    /// out next. A live port without room is torn down by
    /// `PortError::TableFull`. A port that is down answers with the error
    /// that ended it.
    pub fn register_service(&mut self, service_object: Arc<D>) -> (r: Result<
        HandleToExchange,
        PortError,
    >)
        requires
            old(self).wf(),
        ensures
            final(self).wf(),
            old(self).registers(service_object, r, *final(self)),
    {
        if let Some(cause) = self.closed {
            return Err(cause);
        }
        match register(&mut self.dispatcher, service_object) {
            Ok(handle) => Ok(handle),
            Err(e) => {
                self.tear_down(e);
                Err(e)
            },
        }
    }

    /// Begins a call: stamps the request with the next slot and keeps a
    /// waiter under it. The caller writes the stamped request to the
    /// transport and waits on the receiving end.
    ///
    /// A port that is down begins nothing and answers with the error that
    /// ended it.
    pub fn begin_call(&mut self, request: PacketView) -> (r: Result<
        (Packet, Receiver<Packet>),
        PortError,
    >)
        requires
            old(self).wf(),
            request.frame() is Request,
            old(self).next_slot_id() < u64::MAX,
        ensures
            final(self).wf(),
            match old(self).cause() {
                Some(cause) => r == Err::<(Packet, Receiver<Packet>), PortError>(cause) && old(
                    self,
                ).same_as(*final(self)),
                None => {
                    &&& r is Ok
                    &&& r->Ok_0.0.frame() == request.frame().with_slot(old(self).next_slot_id())
                    &&& r->Ok_0.0.bytes() == encode_frame(r->Ok_0.0.frame())
                    &&& old(self).begins(old(self).next_slot_id(), *final(self))
                },
            },
    {
        if let Some(cause) = self.closed {
            return Err(cause);
        }
        let (slot, receiver) = self.multiplexer.install_waiter();
        let packet = request.with_slot(slot);
        Ok((packet, receiver))
    }

    /// The delete frame for the peer's object `id`, to be written to the
    /// transport when the proxy of that object is dropped. A port that is
    /// down has nothing to say.
    pub fn delete_request(&self, id: ServiceObjectId) -> (r: Option<Packet>)
        ensures
            match r {
                Some(packet) => self.cause() is None && packet.frame() == (Frame::Delete {
                    object_id: id,
                }) && packet.bytes() == encode_frame(packet.frame()),
                None => self.cause() is Some,
            },
    {
        if self.closed.is_some() {
            None
        } else {
            Some(Packet::new_delete(id))
        }
    }

    /// Answers one incoming frame.
    pub fn handle_frame(&mut self, frame: &[u8]) -> (routed: Routed<D>)
        requires
            old(self).wf(),
        ensures
            final(self).wf(),
            old(self).routes(frame@, routed, *final(self)),
    {
        if let Some(cause) = self.closed {
            return Routed::Fatal(cause);
        }
        let view = match PacketView::new(frame) {
            Ok(view) => view,
            Err(e) => {
                self.tear_down(e);
                return Routed::Fatal(e);
            },
        };
        match view.kind() {
            PacketKind::Request => {
                let slot = view.slot().unwrap();
                let object_id = view.object_id().unwrap();
                let method = view.method().unwrap();
                match self.dispatcher.lookup(object_id) {
                    Some(object) => Routed::Request {
                        slot,
                        object,
                        method,
                        arguments: slice_to_vec(view.data()),
                    },
                    None => {
                        self.tear_down(PortError::UnknownObjectId);
                        Routed::Fatal(PortError::UnknownObjectId)
                    },
                }
            },
            PacketKind::Response => {
                let slot = view.slot().unwrap();
                match self.multiplexer.resolve(slot, view.to_owned()) {
                    Ok(delivered) => Routed::Response { slot, delivered },
                    Err(e) => {
                        self.tear_down(e);
                        Routed::Fatal(e)
                    },
                }
            },
            PacketKind::Delete => {
                let object_id = view.object_id().unwrap();
                match delete(&mut self.dispatcher, object_id) {
                    Ok(_) => Routed::Delete { object_id },
                    Err(e) => {
                        self.tear_down(e);
                        Routed::Fatal(e)
                    },
                }
            },
        }
    }
}

} // verus!
