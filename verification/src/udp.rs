//! The datagram port: unreliable, unordered transport of single payloads.
//!
//! Inbound, the port's driver loop receives one datagram and hands
//! `(sender address, payload)` to the configured downstream sink
//! synchronously — through [`In::deliver`] — before it receives the next
//! datagram, so slow downstream processing naturally delays the next
//! receive. Outbound sends are scheduled as independent concurrent
//! operations and carry no decision, so they live with the socket, outside
//! the library.

use vstd::prelude::*;

use crate::addr::SocketAddr;
use crate::app::State;

verus! {

/// The inbound half of a datagram port: the downstream sink every received
/// datagram is handed to.
pub struct In<A> {
    pub state: A,
}

impl<A: State<(SocketAddr, Vec<u8>)>> In<A> {
    /// Wrap a downstream sink.
    pub fn new(state: A) -> (r: In<A>)
        ensures
            r.state == state,
    {
        In { state }
    }

    /// Hand one received datagram to the downstream sink, synchronously:
    /// the driver does not receive the next datagram until this returns.
    pub fn deliver(&mut self, remote: SocketAddr, payload: Vec<u8>)
        requires
            old(self).state.req((remote, payload)),
        ensures
            old(self).state.ens((remote, payload), final(self).state),
    {
        self.state.update((remote, payload));
    }
}

} // verus!
