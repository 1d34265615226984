//! Handles that cross the wire, skeletons, and the conversions between
//! service objects and both.

use vstd::prelude::*;
use std::sync::Arc;
use crate::context::Context;
use crate::port::Port;
use crate::port::WeakPort;
use crate::service::Service;
use crate::service::ServiceObjectId;

verus! {

/// The wire form of a reference to an exported object: its id within the
/// port that exported it.
#[derive(PartialEq, Eq, Structural, Debug, Clone, Copy)]
pub struct HandleToExchange(pub ServiceObjectId);

/// A service object ready to be exported: shared ownership of its dispatcher.
pub struct Skeleton<D: ?Sized> {
    pub raw: Arc<D>,
}

impl<D: ?Sized> Clone for Skeleton<D> {
    /// Another skeleton of the same object. Both can be exported, to one port
    /// or to several.
    fn clone(&self) -> (other: Self)
        ensures
            other.raw == self.raw,
    {
        Skeleton { raw: Arc::clone(&self.raw) }
    }
}

impl<D: ?Sized> Skeleton<D> {
    /// The skeleton of a service object, by the object's own conversion.
    pub fn new<T: ?Sized + Service, S: IntoSkeleton<T, D>>(service: S) -> (skeleton: Self)
        ensures
            call_ensures(S::into_skeleton, (service,), skeleton),
    {
        service.into_skeleton()
    }
}

/// The skeleton around a dispatcher.
pub fn create_skeleton<D: ?Sized>(raw: Arc<D>) -> (skeleton: Skeleton<D>)
    ensures
        skeleton.raw == raw,
{
    Skeleton { raw }
}

/// Conversion of an owned service object of the trait `T` into a skeleton
/// with a dispatcher of type `D`.
pub trait IntoSkeleton<T: ?Sized + Service, D: ?Sized> {
    fn into_skeleton(self) -> Skeleton<D>;
}

/// Conversion of an imported reference into a proxy for the trait `T`: a
/// value whose methods call the object that `handle` names through `port`.
pub trait ImportRemote<T: ?Sized + Service, P>: Sized {
    fn import_remote(port: P, handle: HandleToExchange) -> Self;
}

/// What a context's own import asks of a proxy type. Every `ImportRemote` is
/// an `ImportProxy`.
pub trait ImportProxy<T: ?Sized + Service, P>: Sized {
    fn import_proxy(port: P, handle: HandleToExchange) -> Self;
}

impl<T: ?Sized + Service, P, R: ImportRemote<T, P>> ImportProxy<T, P> for R {
    fn import_proxy(port: P, handle: HandleToExchange) -> (proxy: Self)
        ensures
            call_ensures(R::import_remote, (port, handle), proxy),
    {
        R::import_remote(port, handle)
    }
}

/// Exports a service object through the port of `context` and returns the
/// handle to ship to the peer. `None` says that the port is gone.
pub fn export_service_into_handle<W: WeakPort>(
    context: &Context<W>,
    service: Skeleton<<W::Strong as Port>::Dispatcher>,
) -> (handle: Option<HandleToExchange>)
    ensures
        match handle {
            Some(handle) => exists|port: W::Strong|
                call_ensures(W::upgrade, (&context.spec_port(),), Some(port)) && call_ensures(
                    <W::Strong as Port>::register_service,
                    (&port, service.raw),
                    handle,
                ),
            None => call_ensures(W::upgrade, (&context.spec_port(),), None),
        },
{
    match context.port().upgrade() {
        Some(port) => Some(port.register_service(service.raw)),
        None => None,
    }
}

/// Imports the object that `handle` names at the peer of `context`, as a
/// proxy of type `R`.
pub fn import_service_from_handle<T: ?Sized + Service, W: WeakPort, R: ImportProxy<T, W>>(
    context: &Context<W>,
    handle: HandleToExchange,
) -> (proxy: R)
    ensures
        exists|port: W|
            cloned(context.spec_port(), port) && call_ensures(
                R::import_proxy,
                (port, handle),
                proxy,
            ),
{
    R::import_proxy(context.get_port(), handle)
}

} // verus!
