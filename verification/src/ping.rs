//! The smallest service: it answers every ping with "pong".

use vstd::prelude::*;
use crate::service::MethodId;
use crate::service::Service;
use crate::service::ServiceDispatcher;

verus! {

/// The method of the ping service.
pub const PING_METHOD: MethodId = 1;

/// The bytes of "pong".
pub open spec fn pong() -> Seq<u8> {
    seq![0x70u8, 0x6fu8, 0x6eu8, 0x67u8]
}

/// Answers pings.
pub struct PingHandler {}

impl PingHandler {
    /// The answer to a ping.
    pub fn ping(&self) -> (answer: Vec<u8>)
        ensures
            answer@ == pong(),
    {
        let mut answer: Vec<u8> = Vec::new();
        answer.push(0x70);
        answer.push(0x6f);
        answer.push(0x6e);
        answer.push(0x67);
        assert(answer@ =~= pong());
        answer
    }
}

/// The ping service as an exported object.
pub struct PingService {
    ping_handler: PingHandler,
}

impl PingService {
    pub fn new() -> (service: Self) {
        Self { ping_handler: PingHandler {  } }
    }
}

impl Service for PingService {

}

impl ServiceDispatcher for PingService {
    /// `PING_METHOD` is answered with "pong" whatever the arguments; the
    /// service has no other method.
    fn dispatch(&self, method: MethodId, arguments: &[u8]) -> (answer: Option<Vec<u8>>)
        ensures
            method == PING_METHOD ==> answer is Some && answer->Some_0@ == pong(),
            method != PING_METHOD ==> answer is None,
    {
        if method == PING_METHOD {
            Some(self.ping_handler.ping())
        } else {
            None
        }
    }
}

} // verus!
