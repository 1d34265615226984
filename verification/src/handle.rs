//! The client side of one imported object.

use vstd::prelude::*;
use vstd::slice::*;
use crate::error::PortError;
use crate::export_import::HandleToExchange;
use crate::packet::Frame;
use crate::packet::Packet;
use crate::packet::PacketView;
use crate::packet::UNDECIDED_SLOT;
use crate::port::Port;
use crate::port::WeakPort;
use crate::port_stack::remove_port;
use crate::port_stack::set_port;
use crate::port_stack::PortStack;
use crate::port_stack::PORT_STACK_CAP;
use crate::service::MethodId;
use crate::service::ServiceObjectId;

verus! {

/// What a proxy carries: the id of the peer's object and a weak reference to
/// the port through which the object is reached.
///
/// To hold a handle is to need the object. Whoever holds one hands it to
/// `release` when it is done, once; the peer then drops the object.
#[derive(Debug)]
pub struct Handle<P> {
    pub id: ServiceObjectId,
    pub port: P,
}

/// What a call returns for what the port gave: the payload of the response,
/// or the port's error.
pub fn call_outcome(response: Result<Packet, PortError>) -> (r: Result<Vec<u8>, PortError>)
    ensures
        match response {
            Ok(packet) => r is Ok && r->Ok_0@ == packet.frame().payload(),
            Err(e) => r == Err::<Vec<u8>, PortError>(e),
        },
{
    match response {
        Ok(packet) => Ok(slice_to_vec(packet.data())),
        Err(e) => Err(e),
    }
}

impl<P> Handle<P> {
    /// The handle of the object that `imported_id` names at the peer of
    /// `port`.
    pub fn new(imported_id: HandleToExchange, port: P) -> (handle: Self)
        ensures
            handle.id == imported_id.0,
            handle.port == port,
    {
        Handle { id: imported_id.0, port }
    }

    /// The request that calls `method` of the handle's object on `args`, not
    /// yet stamped with a slot.
    pub fn request(&self, method: MethodId, args: &[u8]) -> (packet: Packet)
        ensures
            packet.frame() == self.spec_request(method, args@),
    {
        Packet::new_request(self.id, method, args)
    }

    /// The frame of the request that calls `method` of the handle's object
    /// on `args`.
    pub open spec fn spec_request(self, method: MethodId, args: Seq<u8>) -> Frame {
        Frame::Request { slot: UNDECIDED_SLOT, object_id: self.id, method, payload: args }
    }
}

impl<P: WeakPort> Handle<P> {
    /// That `r` can come of calling `method` on `args`: either the port is
    /// gone and `r` says so, or the live port was handed the request of
    /// `spec_request` and `r` is what `call_outcome` makes of its answer.
    pub open spec fn calls(self, method: MethodId, args: Seq<u8>, r: Result<Vec<u8>, PortError>) -> bool {
        ||| call_ensures(P::upgrade, (&self.port,), None) && r == Err::<Vec<u8>, PortError>(
            PortError::PortGone,
        )
        ||| exists|port: P::Strong, request: PacketView, response: Result<Packet, PortError>|
            {
                &&& call_ensures(P::upgrade, (&self.port,), Some(port))
                &&& request.frame() == self.spec_request(method, args)
                &&& #[trigger] call_ensures(
                    <P::Strong as Port>::call,
                    (&port, request),
                    response,
                )
                &&& match response {
                    Ok(packet) => r is Ok && r->Ok_0@ == packet.frame().payload(),
                    Err(e) => r == Err::<Vec<u8>, PortError>(e),
                }
            }
    }

    /// Enters a call: pushes the handle's port, so that what is encoded and
    /// decoded during the call knows its port. The stack must have room.
    pub fn enter(&self, stack: &mut PortStack<P>)
        requires
            old(stack)@.len() < PORT_STACK_CAP,
        ensures
            final(stack).wf(),
            final(stack)@.len() == old(stack)@.len() + 1,
            final(stack)@.drop_last() == old(stack)@,
            cloned(self.port, final(stack)@.last()),
    {
        set_port(stack, self.port.clone());
        assert(final(stack)@.drop_last() =~= old(stack)@);
    }

    /// Calls `method` of the handle's object on the encoded arguments
    /// `args`, waits, and returns the encoded result.
    ///
    /// The port is asked for at the moment of the call; a port that is gone
    /// gives `PortError::PortGone`.
    pub fn call(&self, method: MethodId, args: &[u8]) -> (r: Result<Vec<u8>, PortError>)
        ensures
            self.calls(method, args@, r),
    {
        match self.port.upgrade() {
            Some(port) => {
                let packet = self.request(method, args);
                let response = port.call(packet.view());
                call_outcome(response)
            },
            None => Err(PortError::PortGone),
        }
    }

    /// Leaves a call: pops the port that `enter` pushed.
    pub fn leave(&self, stack: &mut PortStack<P>)
        requires
            old(stack)@.len() > 0,
        ensures
            final(stack)@ == old(stack)@.drop_last(),
            old(stack).wf() ==> final(stack).wf(),
    {
        remove_port(stack);
    }

    /// Gives the handle up. A live port is asked, once, to tell the peer to
    /// drop the object; a port that is gone is left alone. The result tells
    /// whether the port was asked.
    pub fn release(self) -> (asked: bool)
        ensures
            asked ==> exists|port: P::Strong|
                call_ensures(P::upgrade, (&self.port,), Some(port)) && #[trigger] call_ensures(
                    <P::Strong as Port>::delete_request,
                    (&port, self.id),
                    (),
                ),
            !asked ==> call_ensures(P::upgrade, (&self.port,), None),
    {
        match self.port.upgrade() {
            Some(port) => {
                port.delete_request(self.id);
                true
            },
            None => false,
        }
    }
}

} // verus!
