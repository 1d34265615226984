//! What can end a call or a port.

use vstd::prelude::*;

verus! {

/// The conditions under which a port stops or a call fails.
#[derive(Clone, Copy, PartialEq, Eq, Structural, Debug)]
pub enum PortError {
    /// The transport reported its end.
    TransportClosed,
    /// A waiting call was released while the port was torn down.
    Cancelled,
    /// The object table has no room for another object.
    TableFull,
    /// A frame named an object that the table does not hold.
    UnknownObjectId,
    /// A request named a method that its object does not have.
    UnknownMethodId,
    /// A response named a slot on which nobody waits.
    UnknownSlotId,
    /// A frame did not follow the wire layout.
    MalformedFrame,
    /// The serialization format rejected a value.
    SerializationError,
    /// A proxy was used after its port was dropped.
    PortGone,
}

} // verus!
