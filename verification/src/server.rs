//! Servers: subscribers that answer the requests which they receive.

use vstd::prelude::*;
use crate::subscriber::{receives, Subscriber};

verus! {

/// A subscriber that handles each message that it receives, one at a time.
pub trait Server<Message>: Subscriber<Message> {
    /// Handles one request: calls the method that the request stands for, with what the
    /// request carries, and resolves the request with what the method returned. Leaves the
    /// subscriber as it is.
    fn handle_request(&mut self, request: Message)
        ensures
            final(self).state() == old(self).state(),
    ;

    /// One turn of the server: receives a request, if one is ready, and handles it before
    /// it returns. Says whether there was one. Never waits.
    fn run_once(&mut self) -> (handled: bool)
        requires
            old(self).state().can_receive,
        ensures
            exists|request: Option<Message>|
                receives(old(self).state(), request, final(self).state()) && handled
                    == request is Some,
    {
        match self.receive() {
            Some(request) => {
                let ghost received = Some(request);
                self.handle_request(request);
                assert(receives(old(self).state(), received, self.state()));
                true
            },
            None => {
                assert(receives(old(self).state(), None, self.state()));
                false
            },
        }
    }
}

} // verus!
