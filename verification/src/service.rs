//! Identifiers and the capabilities that a service object offers.

use vstd::prelude::*;

verus! {

/// Names one exported object within one port. Zero names no object.
pub type ServiceObjectId = u32;

/// Names one method within one service trait.
pub type MethodId = u32;

/// Names one service trait.
pub type TraitId = u32;

/// Names one outstanding request on one port.
pub type SlotId = u64;

/// Names one port of a process.
pub type PortId = u64;

/// The identifier that never names an exported object.
pub const NULL_OBJECT_ID: ServiceObjectId = 0;

/// Marks a type as a service: something whose methods a peer may call.
pub trait Service: Send + Sync {

}

/// The server side of one service object: from a method and its encoded
/// arguments to the encoded result.
///
/// `None` says that the object has no such method.
pub trait ServiceDispatcher: Send + Sync {
    fn dispatch(&self, method: MethodId, arguments: &[u8]) -> Option<Vec<u8>>;
}

} // verus!
