//! What proxies and exchange wrappers ask of a port.

use vstd::prelude::*;
use std::sync::Arc;
use crate::error::PortError;
use crate::export_import::HandleToExchange;
use crate::packet::Packet;
use crate::packet::PacketView;
use crate::service::ServiceObjectId;

verus! {

/// A live port, as its users see it.
///
/// The methods take `&self`: a port is shared between the threads of its
/// context and guards its own state.
pub trait Port {
    /// The dispatchers that the port exports.
    type Dispatcher: ?Sized;

    /// Sends a request and waits for its response. The port stamps the
    /// request with a fresh slot. A call that is still waiting when the port
    /// is torn down ends with `PortError::Cancelled`.
    fn call(&self, packet: PacketView) -> Result<Packet, PortError>;

    /// Puts a service object into the port's table and returns its handle.
    fn register_service(&self, service_object: Arc<Self::Dispatcher>) -> HandleToExchange;

    /// Tells the peer that no proxy refers to its object `id` any more.
    fn delete_request(&self, id: ServiceObjectId);
}

/// A reference to a port that does not keep the port alive.
pub trait WeakPort: Clone {
    /// What the reference turns into while the port lives.
    type Strong: Port;

    /// The port, unless it is gone.
    fn upgrade(&self) -> Option<Self::Strong>;
}

impl<P: Port + ?Sized> Port for Arc<P> {
    type Dispatcher = P::Dispatcher;

    fn call(&self, packet: PacketView) -> (r: Result<Packet, PortError>)
        ensures
            call_ensures(P::call, (&**self, packet), r),
    {
        (**self).call(packet)
    }

    fn register_service(&self, service_object: Arc<Self::Dispatcher>) -> (handle: HandleToExchange)
        ensures
            call_ensures(P::register_service, (&**self, service_object), handle),
    {
        (**self).register_service(service_object)
    }

    fn delete_request(&self, id: ServiceObjectId)
        ensures
            call_ensures(P::delete_request, (&**self, id), ()),
    {
        (**self).delete_request(id)
    }
}

} // verus!
