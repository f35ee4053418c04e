//! The mailbox bridge: a synchronous-push / asynchronous-pull ordered
//! channel.
//!
//! Producers push messages without blocking; one consumer pulls them in FIFO
//! order. Once every producer is gone the channel is closed and the consumer
//! receives end-of-stream. This module holds the verified queue model — the
//! ordering and shutdown discipline; the actual cross-task wakeup is plain
//! asynchronous plumbing outside the library.

use vstd::prelude::*;

use crate::app::State;

verus! {

/// An unbounded FIFO channel between synchronous producers and one consumer.
///
/// `queue` holds the messages pushed and not yet pulled, oldest first;
/// `closed` records that every producer is gone.
pub struct Mailbox<M> {
    pub queue: Vec<M>,
    pub closed: bool,
}

impl<M> Mailbox<M> {
    /// An empty, open channel.
    pub fn new() -> (r: Mailbox<M>)
        ensures
            r.queue@ =~= Seq::<M>::empty(),
            !r.closed,
    {
        Mailbox { queue: Vec::new(), closed: false }
    }

    /// Push one message; never blocks, never fails.
    pub fn push(&mut self, message: M)
        requires
            !old(self).closed,
        ensures
            final(self).queue@ == old(self).queue@.push(message),
            !final(self).closed,
    {
        self.queue.push(message);
    }

    /// Record that every producer is gone: no further push will come.
    pub fn close(&mut self)
        ensures
            final(self).queue@ == old(self).queue@,
            final(self).closed,
    {
        self.closed = true;
    }

    /// Pull the oldest pending message, or end-of-stream (`None`) if the
    /// channel is closed and drained. A pull on an open, empty channel would
    /// suspend; the caller resolves that by only pulling when a message is
    /// pending or the channel is closed.
    pub fn recv(&mut self) -> (r: Option<M>)
        requires
            old(self).queue@.len() > 0 || old(self).closed,
        ensures
            old(self).queue@.len() > 0 ==> {
                &&& r == Some(old(self).queue@[0])
                &&& final(self).queue@ == old(self).queue@.drop_first()
                &&& final(self).closed == old(self).closed
            },
            old(self).queue@.len() == 0 ==> r is None && *final(self) == *old(self),
    {
        if self.queue.len() > 0 {
            let m = self.queue.remove(0);
            proof {
                assert(self.queue@ =~= old(self).queue@.drop_first());
            }
            Some(m)
        } else {
            None
        }
    }
}

/// The push half of a mailbox is itself a message sink.
impl<M> State<M> for Mailbox<M> {
    open spec fn req(self, m: M) -> bool {
        !self.closed
    }

    open spec fn ens(self, m: M, post: Self) -> bool {
        post.queue@ == self.queue@.push(m) && post.closed == self.closed
    }

    fn update(&mut self, message: M) {
        self.push(message);
    }
}

} // verus!
