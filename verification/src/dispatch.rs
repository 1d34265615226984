//! From an incoming call to the object that it names.

use vstd::prelude::*;
use std::sync::Arc;
use crate::error::PortError;
use crate::export_import::HandleToExchange;
use crate::service::MethodId;
use crate::service::PortId;
use crate::service::ServiceDispatcher;
use crate::service::ServiceObjectId;
use crate::table::ObjectTable;
use crate::table::MAX_OBJECTS;

verus! {

/// The exported objects of one port, and the way from an object id to the
/// object's own dispatcher.
pub struct PortDispatcher<D: ?Sized> {
    service_table: ObjectTable<Arc<D>>,
    id: PortId,
}

/// What comes of a dispatcher's answer: its bytes, or the error for a method
/// that the object does not have.
pub fn dispatch_outcome(answer: Option<Vec<u8>>) -> (r: Result<Vec<u8>, PortError>)
    ensures
        r == match answer {
            Some(bytes) => Ok::<Vec<u8>, PortError>(bytes),
            None => Err::<Vec<u8>, PortError>(PortError::UnknownMethodId),
        },
{
    match answer {
        Some(bytes) => Ok(bytes),
        None => Err(PortError::UnknownMethodId),
    }
}

impl<D: ?Sized> PortDispatcher<D> {
    /// The invariant of the table inside.
    pub closed spec fn wf(self) -> bool {
        self.service_table.wf()
    }

    /// The table of the exported objects.
    pub closed spec fn table(self) -> ObjectTable<Arc<D>> {
        self.service_table
    }

    /// The exported objects, by id.
    pub open spec fn objects(self) -> Map<ServiceObjectId, Arc<D>> {
        self.table()@
    }

    /// The id of the port.
    pub closed spec fn spec_id(self) -> PortId {
        self.id
    }

    /// The dispatcher of the port `id`, with room for `size` objects.
    pub fn new(id: PortId, size: usize) -> (dispatcher: Self)
        requires
            size <= MAX_OBJECTS,
        ensures
            dispatcher.wf(),
            dispatcher.spec_id() == id,
            dispatcher.table().is_fresh(),
            dispatcher.table().spec_capacity() == size,
    {
        PortDispatcher { service_table: ObjectTable::new(size), id }
    }

    /// The id of the port.
    pub fn get_id(&self) -> (id: PortId)
        ensures
            id == self.spec_id(),
    {
        self.id
    }

    /// The number of exported objects.
    pub fn object_count(&self) -> (n: usize)
        requires
            self.wf(),
        ensures
            n == self.table().spec_len(),
    {
        self.service_table.len()
    }

    /// Whether `handle` names an exported object.
    pub fn contains(&self, handle: ServiceObjectId) -> (b: bool)
        ensures
            b == self.objects().contains_key(handle),
    {
        self.service_table.contains(handle)
    }

    /// A share of the object that `handle` names. The caller runs the
    /// object's dispatcher on the share, after it has let go of the table,
    /// so that the dispatcher may itself export into the table.
    pub fn lookup(&self, handle: ServiceObjectId) -> (r: Option<Arc<D>>)
        ensures
            r == if self.objects().contains_key(handle) {
                Some(self.objects()[handle])
            } else {
                None
            },
    {
        match self.service_table.get(handle) {
            Some(object) => Some(Arc::clone(object)),
            None => None,
        }
    }

    /// Runs `method` of the object that `handle` names on `arguments`.
    ///
    /// An unknown object is an error; so is a method that the object
    /// rejects. Otherwise the result is what the object's dispatcher gave.
    pub fn dispatch(&self, handle: ServiceObjectId, method: MethodId, arguments: &[u8]) -> (r:
        Result<Vec<u8>, PortError>) where D: ServiceDispatcher
        ensures
            !self.objects().contains_key(handle) ==> r == Err::<Vec<u8>, PortError>(
                PortError::UnknownObjectId,
            ),
            self.objects().contains_key(handle) ==> exists|answer: Option<Vec<u8>>|
                call_ensures(D::dispatch, (&*self.objects()[handle], method, arguments), answer)
                    && r == match answer {
                    Some(bytes) => Ok::<Vec<u8>, PortError>(bytes),
                    None => Err::<Vec<u8>, PortError>(PortError::UnknownMethodId),
                },
    {
        match self.lookup(handle) {
            Some(object) => {
                let answer = object.dispatch(method, arguments);
                dispatch_outcome(answer)
            },
            None => Err(PortError::UnknownObjectId),
        }
    }

    /// Drops every exported object.
    pub fn clear(&mut self)
        requires
            old(self).wf(),
        ensures
            final(self).wf(),
            final(self).spec_id() == old(self).spec_id(),
            final(self).table().is_fresh(),
            final(self).table().spec_capacity() == old(self).table().spec_capacity(),
    {
        self.service_table.clear();
    }
}

/// Exports a service object from the port and returns its handle.
///
/// The object gets the id that the table gives out next, and the table is
/// otherwise as before. A full table takes nothing.
pub fn register<D: ?Sized>(port: &mut PortDispatcher<D>, service: Arc<D>) -> (r: Result<
    HandleToExchange,
    PortError,
>)
    requires
        old(port).wf(),
    ensures
        final(port).wf(),
        final(port).spec_id() == old(port).spec_id(),
        match r {
            Ok(handle) => old(port).table().created(final(port).table(), handle.0, service),
            Err(e) => {
                &&& e == PortError::TableFull
                &&& old(port).table().spec_len() == old(port).table().spec_capacity()
                &&& old(port).table().unchanged(final(port).table())
            },
        },
{
    match port.service_table.create(service) {
        Ok(id) => Ok(HandleToExchange(id)),
        Err(e) => Err(e),
    }
}

/// Takes the object that `handle` names out of the port, on the peer's word
/// that no proxy refers to it any more. A handle that names nothing is an
/// error, and the port stays as it is.
pub fn delete<D: ?Sized>(port: &mut PortDispatcher<D>, handle: ServiceObjectId) -> (r: Result<
    (),
    PortError,
>)
    requires
        old(port).wf(),
    ensures
        final(port).wf(),
        final(port).spec_id() == old(port).spec_id(),
        match r {
            Ok(_) => old(port).table().removed(final(port).table(), handle),
            Err(e) => {
                &&& e == PortError::UnknownObjectId
                &&& !old(port).objects().contains_key(handle)
                &&& old(port).table().unchanged(final(port).table())
            },
        },
{
    match port.service_table.remove(handle) {
        Ok(_) => Ok(()),
        Err(e) => Err(e),
    }
}

} // verus!
