//! The user's end of one connection.

use vstd::prelude::*;

verus! {

/// One end of a connection: it knows the port through which this end
/// exports and imports. The port itself, with its transport and its worker
/// activities, is owned by the program that made the context; the context
/// refers to it weakly.
pub struct Context<W> {
    port: W,
}

impl<W> Context<W> {
    /// The port of the context.
    pub closed spec fn spec_port(self) -> W {
        self.port
    }

    /// A context on a port.
    pub fn new(port: W) -> (context: Self)
        ensures
            context.spec_port() == port,
    {
        Context { port }
    }

    /// The port of the context.
    pub fn port(&self) -> (port: &W)
        ensures
            *port == self.spec_port(),
    {
        &self.port
    }

    /// A clone of the port of the context, for a proxy to keep.
    pub fn get_port(&self) -> (port: W) where W: Clone
        ensures
            cloned(self.spec_port(), port),
    {
        self.port.clone()
    }
}

} // verus!
