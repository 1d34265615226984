//! The stack of ports in whose name values are being encoded and decoded.
//!
//! An exchange wrapper that is encoded or decoded has to know the port of the
//! call it belongs to. The call pushes its port before the encoding starts and
//! pops it when the decoding is done. A handler that calls out while it is
//! itself inside a call nests one level: the stack holds at most two ports.

use vstd::prelude::*;

verus! {

/// The largest number of ports on a stack.
pub const PORT_STACK_CAP: usize = 2;

/// A stack of ports, the innermost call's port last.
pub struct PortStack<P> {
    ports: Vec<P>,
}

impl<P> PortStack<P> {
    /// The ports on the stack, the innermost last.
    pub closed spec fn view(self) -> Seq<P> {
        self.ports@
    }

    /// The invariant: the stack is never deeper than its cap.
    pub open spec fn wf(self) -> bool {
        self@.len() <= PORT_STACK_CAP
    }

    /// An empty stack.
    pub fn new() -> (stack: Self)
        ensures
            stack.wf(),
            stack@ == Seq::<P>::empty(),
    {
        PortStack { ports: Vec::new() }
    }

    /// The number of ports on the stack.
    pub fn depth(&self) -> (n: usize)
        ensures
            n == self@.len(),
    {
        self.ports.len()
    }

    /// The innermost call's port. The stack must not be empty.
    pub fn top(&self) -> (port: &P)
        requires
            self@.len() > 0,
        ensures
            *port == self@.last(),
    {
        &self.ports[self.ports.len() - 1]
    }

    /// Whether the stack is at its cap.
    pub fn is_full(&self) -> (b: bool)
        ensures
            b == (self@.len() >= PORT_STACK_CAP),
    {
        self.ports.len() >= PORT_STACK_CAP
    }

    /// Whether the stack is empty.
    pub fn is_empty(&self) -> (b: bool)
        ensures
            b == (self@.len() == 0),
    {
        self.ports.len() == 0
    }
}

/// Pushes the port of a call that begins. The stack must have room.
pub fn set_port<P>(stack: &mut PortStack<P>, port: P)
    requires
        old(stack)@.len() < PORT_STACK_CAP,
    ensures
        final(stack)@ == old(stack)@.push(port),
        final(stack).wf(),
{
    stack.ports.push(port);
}

/// A clone of the innermost call's port. The stack must not be empty.
pub fn get_port<P: Clone>(stack: &PortStack<P>) -> (port: P)
    requires
        stack@.len() > 0,
    ensures
        cloned(stack@.last(), port),
{
    stack.ports[stack.ports.len() - 1].clone()
}

/// Pops the port of a call that ends. The stack must not be empty.
pub fn remove_port<P>(stack: &mut PortStack<P>)
    requires
        old(stack)@.len() > 0,
    ensures
        final(stack)@ == old(stack)@.drop_last(),
        old(stack).wf() ==> final(stack).wf(),
{
    stack.ports.pop();
}

} // verus!
