//! The wrappers in which service references travel through the arguments
//! and results of calls.
//!
//! A wrapper stands where a service object is passed or returned. On the
//! wire it is the object's handle. To encode a `ServiceToExport` is to
//! export its object through the port of the call that is being encoded; to
//! decode a `ServiceToImport` is to take down the handle together with the
//! port of the call that is being decoded. Both find that port on top of the
//! port stack.

use vstd::prelude::*;
use std::marker::PhantomData;
use std::sync::Arc;
use crate::error::PortError;
use crate::export_import::HandleToExchange;
use crate::export_import::ImportRemote;
use crate::export_import::IntoSkeleton;
use crate::export_import::Skeleton;
use crate::port::Port;
use crate::port::WeakPort;
use crate::port_stack::get_port;
use crate::port_stack::PortStack;
use crate::service::Service;

verus! {

/// Where an object to export stands: not yet registered, or registered
/// under a handle. Some encoders walk a value twice, first to measure it and
/// then to write it; the second walk finds the handle of the first.
pub enum ExportEntry<D: ?Sized> {
    ReadyToExport(Skeleton<D>),
    Exported(HandleToExchange),
}

/// A service object on its way out.
pub struct ServiceToExport<T: ?Sized + Service, D: ?Sized> {
    service: ExportEntry<D>,
    _marker: PhantomData<T>,
}

/// What encoding a wrapper gives for what the port stack's top gave: the
/// handle under which the live port registered the object, or
/// `PortError::PortGone`.
pub fn export_outcome(registered: Option<HandleToExchange>) -> (r: Result<
    HandleToExchange,
    PortError,
>)
    ensures
        r == match registered {
            Some(handle) => Ok::<HandleToExchange, PortError>(handle),
            None => Err::<HandleToExchange, PortError>(PortError::PortGone),
        },
{
    match registered {
        Some(handle) => Ok(handle),
        None => Err(PortError::PortGone),
    }
}

impl<T: ?Sized + Service, D: ?Sized> ServiceToExport<T, D> {
    /// Where the object stands.
    pub closed spec fn entry(self) -> ExportEntry<D> {
        self.service
    }

    /// Wraps a service object for export.
    pub fn new<S: IntoSkeleton<T, D>>(service: S) -> (wrapper: Self)
        ensures
            wrapper.entry() is ReadyToExport,
            call_ensures(S::into_skeleton, (service,), wrapper.entry()->ReadyToExport_0),
    {
        Self { service: ExportEntry::ReadyToExport(service.into_skeleton()), _marker: PhantomData }
    }

    /// Whether the object has been registered.
    pub fn is_exported(&self) -> (b: bool)
        ensures
            b == (self.entry() is Exported),
    {
        match &self.service {
            ExportEntry::ReadyToExport(_) => false,
            ExportEntry::Exported(_) => true,
        }
    }

    /// The skeleton of an object that has not been registered.
    pub fn get_raw_export(self) -> (skeleton: Skeleton<D>)
        requires
            self.entry() is ReadyToExport,
        ensures
            skeleton == self.entry()->ReadyToExport_0,
    {
        match self.service {
            ExportEntry::ReadyToExport(skeleton) => skeleton,
            ExportEntry::Exported(_) => unreached(),
        }
    }

    /// Registers the object with `port`, unless that was done before, and
    /// returns its handle. However often this is called, the object is
    /// registered once.
    pub fn export<P: Port<Dispatcher = D>>(&mut self, port: &P) -> (handle: HandleToExchange)
        ensures
            final(self).entry() == ExportEntry::<D>::Exported(handle),
            match old(self).entry() {
                ExportEntry::Exported(before) => handle == before,
                ExportEntry::ReadyToExport(skeleton) => call_ensures(
                    P::register_service,
                    (port, skeleton.raw),
                    handle,
                ),
            },
    {
        let handle = match &self.service {
            ExportEntry::ReadyToExport(skeleton) => port.register_service(
                Arc::clone(&skeleton.raw),
            ),
            ExportEntry::Exported(handle) => *handle,
        };
        self.service = ExportEntry::Exported(handle);
        handle
    }

    /// That `r` and `after` can come of encoding the wrapper under the
    /// port `top`: a wrapper that was registered before gives its handle and
    /// stays; otherwise the port is asked for, a live port registers the
    /// object and the wrapper keeps the handle, and a port that is gone
    /// leaves the wrapper as it is.
    pub open spec fn serializes<W: WeakPort>(
        self,
        top: W,
        r: Result<HandleToExchange, PortError>,
        after: Self,
    ) -> bool where W::Strong: Port<Dispatcher = D> {
        match self.entry() {
            ExportEntry::Exported(before) => r == Ok::<HandleToExchange, PortError>(before)
                && after.entry() == self.entry(),
            ExportEntry::ReadyToExport(skeleton) => {
                ||| {
                    &&& call_ensures(W::upgrade, (&top,), None)
                    &&& r == Err::<HandleToExchange, PortError>(PortError::PortGone)
                    &&& after.entry() == self.entry()
                }
                ||| exists|port: W::Strong|
                    {
                        &&& call_ensures(W::upgrade, (&top,), Some(port))
                        &&& r is Ok
                        &&& #[trigger] call_ensures(
                            <W::Strong as Port>::register_service,
                            (&port, skeleton.raw),
                            r->Ok_0,
                        )
                        &&& after.entry() == ExportEntry::<D>::Exported(r->Ok_0)
                    }
            },
        }
    }

    /// Encodes the wrapper: returns the handle to write in its place, after
    /// registering the object with the port on top of the stack if that was
    /// not done before. The stack must not be empty.
    pub fn serialize<W: WeakPort>(&mut self, stack: &PortStack<W>) -> (r: Result<
        HandleToExchange,
        PortError,
    >) where W::Strong: Port<Dispatcher = D>
        requires
            stack@.len() > 0,
        ensures
            old(self).serializes(stack@.last(), r, *final(self)),
    {
        if let ExportEntry::Exported(handle) = &self.service {
            return Ok(*handle);
        }
        match stack.top().upgrade() {
            Some(port) => {
                let handle = self.export(&port);
                let r = Ok(handle);
                assert(call_ensures(
                    <W::Strong as Port>::register_service,
                    (&port, old(self).entry()->ReadyToExport_0.raw),
                    r->Ok_0,
                ));
                r
            },
            None => Err(PortError::PortGone),
        }
    }
}

/// A service object on its way in: the handle that arrived, and the port
/// through which it arrived.
pub struct ServiceToImport<T: ?Sized + Service, P> {
    handle: HandleToExchange,
    port: P,
    _marker: PhantomData<T>,
}

impl<T: ?Sized + Service, P> ServiceToImport<T, P> {
    /// The handle that arrived.
    pub closed spec fn handle(self) -> HandleToExchange {
        self.handle
    }

    /// The port through which the handle arrived.
    pub closed spec fn port(self) -> P {
        self.port
    }

    /// Turns the wrapper into a proxy of the trait.
    pub fn into_remote<R: ImportRemote<T, P>>(self) -> (proxy: R)
        ensures
            call_ensures(R::import_remote, (self.port(), self.handle()), proxy),
    {
        R::import_remote(self.port, self.handle)
    }

    /// Takes the reference for one to another service trait. No rule of
    /// compatibility between traits exists yet, so every cast succeeds.
    pub fn cast_service<U: ?Sized + Service>(self) -> (r: Result<ServiceToImport<U, P>, ()>)
        ensures
            r is Ok,
            r->Ok_0.handle() == self.handle(),
            r->Ok_0.port() == self.port(),
    {
        Ok(ServiceToImport { handle: self.handle, port: self.port, _marker: PhantomData })
    }

    /// Takes the reference for one to another service trait, unchecked.
    pub fn cast_service_without_compatibility_check<U: ?Sized + Service>(self) -> (r:
        ServiceToImport<U, P>)
        ensures
            r.handle() == self.handle(),
            r.port() == self.port(),
    {
        ServiceToImport { handle: self.handle, port: self.port, _marker: PhantomData }
    }

    /// Wraps a handle that arrived through `port`.
    pub fn from_raw_import(handle: HandleToExchange, port: P) -> (wrapper: Self)
        ensures
            wrapper.handle() == handle,
            wrapper.port() == port,
    {
        Self { handle, port, _marker: PhantomData }
    }

    /// Decodes a wrapper: takes the handle that was read together with a
    /// clone of the port on top of the stack. The stack must not be empty.
    pub fn deserialize(handle: HandleToExchange, stack: &PortStack<P>) -> (wrapper: Self) where
        P: Clone,

        requires
            stack@.len() > 0,
        ensures
            wrapper.handle() == handle,
            cloned(stack@.last(), wrapper.port()),
    {
        Self { handle, port: get_port(stack), _marker: PhantomData }
    }
}

/// A service reference in either direction, for a trait whose one
/// declaration serves both the side that exports and the side that imports.
pub enum ServiceRef<T: ?Sized + Service, D: ?Sized, P> {
    Export(ServiceToExport<T, D>),
    Import(ServiceToImport<T, P>),
}

impl<T: ?Sized + Service, D: ?Sized, P> ServiceRef<T, D, P> {
    /// A reference to export.
    pub fn create_export<S: IntoSkeleton<T, D>>(service: S) -> (reference: Self)
        ensures
            reference is Export,
            reference->Export_0.entry() is ReadyToExport,
            call_ensures(
                S::into_skeleton,
                (service,),
                reference->Export_0.entry()->ReadyToExport_0,
            ),
    {
        ServiceRef::Export(ServiceToExport::new(service))
    }

    /// Whether the reference is one to export.
    pub fn is_export(&self) -> (b: bool)
        ensures
            b == (self is Export),
    {
        match self {
            ServiceRef::Export(_) => true,
            ServiceRef::Import(_) => false,
        }
    }

    /// The imported reference inside. The reference must be an import.
    pub fn unwrap_import(self) -> (wrapper: ServiceToImport<T, P>)
        requires
            self is Import,
        ensures
            wrapper == self->Import_0,
    {
        match self {
            ServiceRef::Import(wrapper) => wrapper,
            ServiceRef::Export(_) => unreached(),
        }
    }

    /// What to say to one who encodes an imported reference.
    pub fn reexport_message() -> (text: &'static str)
        ensures
            text@
                == "If you want to re-export an imported object, first completely import it with `into_remote()` and make it into `ServiceToExport`."@,
    {
        "If you want to re-export an imported object, first completely import it with `into_remote()` and make it into `ServiceToExport`."
    }

    /// Encodes a reference to export, as `ServiceToExport::serialize` does.
    /// An imported reference cannot be encoded: it has to be turned into a
    /// proxy and wrapped anew.
    pub fn serialize(&mut self, stack: &PortStack<P>) -> (r: Result<
        HandleToExchange,
        PortError,
    >) where P: WeakPort, P::Strong: Port<Dispatcher = D>
        requires
            *old(self) is Export,
            stack@.len() > 0,
        ensures
            *final(self) is Export,
            (*old(self))->Export_0.serializes(stack@.last(), r, (*final(self))->Export_0),
    {
        match self {
            ServiceRef::Export(wrapper) => wrapper.serialize(stack),
            ServiceRef::Import(_) => unreached(),
        }
    }

    /// Decodes a reference: what arrives is always an import.
    pub fn deserialize(handle: HandleToExchange, stack: &PortStack<P>) -> (reference: Self) where
        P: Clone,

        requires
            stack@.len() > 0,
        ensures
            reference is Import,
            reference->Import_0.handle() == handle,
            cloned(stack@.last(), reference->Import_0.port()),
    {
        ServiceRef::Import(ServiceToImport::deserialize(handle, stack))
    }
}

} // verus!
