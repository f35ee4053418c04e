//! The framed link: a duplex, length-prefixed message stream per peer.
//!
//! The per-link driver concurrently races reading inbound frames against
//! pulling outbound messages from the link's mailbox; this module holds that
//! loop's verified decision core as a state machine. The driver observes an
//! event — a reassembled inbound message, a pulled outbound message, the
//! mailbox's end-of-stream, or a read or write failure — hands it to
//! [`GeneralConnection::on_event`], and performs the returned action on the
//! socket. The state machine walks the lifecycle *Active* (full duplex) →
//! *LocalClosing* (no further outbound, inbound still served) →
//! *Disconnected* (terminal), and emits the disconnect notification exactly
//! once, at the transition into *Disconnected*.

use vstd::prelude::*;

use crate::addr::SocketAddr;
use crate::frame::frame_header;

verus! {

/// Where a link stands in its lifecycle.
#[derive(Debug, Clone, Copy, PartialEq, Eq)]
pub enum LinkPhase {
    /// Full duplex: inbound frames are delivered, outbound messages written.
    Active,
    /// The local side has no more to say: no further outbound is accepted,
    /// inbound is still served.
    LocalClosing,
    /// Terminal: a read or write failed; the notifier has fired.
    Disconnected,
}

/// The disconnect notification: the remote address of the link that ended.
#[derive(Debug, Clone, Copy, PartialEq, Eq, Hash)]
pub struct Disconnected(pub SocketAddr);

/// What the driver loop observed on the link.
#[derive(Debug)]
pub enum LinkEvent {
    /// A whole inbound message was reassembled from the stream.
    Received(Vec<u8>),
    /// Reading from the stream failed: the connection is broken.
    ReadFailed,
    /// An outbound message was pulled from the link's mailbox.
    Outbound(Vec<u8>),
    /// The link's mailbox reached end-of-stream: every producer is gone.
    OutboundClosed,
    /// Writing to the stream failed: the connection is broken.
    WriteFailed,
}

/// What the driver loop must do next.
#[derive(Debug)]
pub enum LinkAction {
    /// Hand `(remote address, payload)` to the downstream sink.
    Deliver(SocketAddr, Vec<u8>),
    /// Write these bytes to the stream and flush.
    Write(Vec<u8>),
    /// Nothing to perform.
    Idle,
    /// Fire the disconnect notifier with this notification, then exit.
    Stop(Disconnected),
}

/// The verified core of one link's driver loop.
pub struct GeneralConnection {
    pub remote_addr: SocketAddr,
    pub phase: LinkPhase,
}

impl GeneralConnection {
    /// Which events the machine can be stepped on.
    ///
    /// A disconnected machine accepts none; outbound events come only while
    /// the driver still offers writes, and an outbound message must fit the
    /// 4-byte length prefix.
    pub open spec fn accepts(self, ev: LinkEvent) -> bool {
        &&& !(self.phase is Disconnected)
        &&& (ev is Outbound || ev is OutboundClosed) ==> self.phase is Active
        &&& (ev matches LinkEvent::Outbound(m) ==> m@.len() <= u32::MAX)
    }

    /// One step of the driver loop: how the event maps to the next phase and
    /// the action the driver must perform.
    pub open spec fn step(self, ev: LinkEvent, post: Self, a: LinkAction) -> bool {
        post.remote_addr == self.remote_addr && match ev {
            LinkEvent::Received(p) => {
                &&& post.phase == self.phase
                &&& (a matches LinkAction::Deliver(ad, pl) && ad == self.remote_addr && pl@ == p@)
            },
            LinkEvent::Outbound(m) => {
                &&& post.phase == self.phase
                &&& (a matches LinkAction::Write(w) && w@ == frame_header(m@.len() as u32) + m@)
            },
            LinkEvent::OutboundClosed => {
                &&& post.phase is LocalClosing
                &&& a is Idle
            },
            LinkEvent::ReadFailed => {
                &&& post.phase is Disconnected
                &&& (a matches LinkAction::Stop(d) && d.0 == self.remote_addr)
            },
            LinkEvent::WriteFailed => {
                &&& post.phase is Disconnected
                &&& (a matches LinkAction::Stop(d) && d.0 == self.remote_addr)
            },
        }
    }

    /// A freshly established link, full duplex.
    pub fn new(remote_addr: SocketAddr) -> (r: GeneralConnection)
        ensures
            r.remote_addr == remote_addr,
            r.phase is Active,
    {
        GeneralConnection { remote_addr, phase: LinkPhase::Active }
    }

    /// Step the machine on one observed event.
    pub fn on_event(&mut self, event: LinkEvent) -> (a: LinkAction)
        requires
            old(self).accepts(event),
        ensures
            old(self).step(event, *final(self), a),
    {
        match event {
            LinkEvent::Received(p) => LinkAction::Deliver(self.remote_addr, p),
            LinkEvent::Outbound(m) => LinkAction::Write(crate::frame::encode_frame(&m)),
            LinkEvent::OutboundClosed => {
                self.phase = LinkPhase::LocalClosing;
                LinkAction::Idle
            },
            LinkEvent::ReadFailed => {
                self.phase = LinkPhase::Disconnected;
                LinkAction::Stop(Disconnected(self.remote_addr))
            },
            LinkEvent::WriteFailed => {
                self.phase = LinkPhase::Disconnected;
                LinkAction::Stop(Disconnected(self.remote_addr))
            },
        }
    }
}

/// The disconnect notification fires exactly once per link: a step emits it
/// exactly at the transition into *Disconnected*, it carries the link's
/// remote address, and a disconnected machine accepts no further event — so
/// over any run of the driver loop the notifier fires at most once, and it
/// has fired by the time the loop exits.
pub proof fn lemma_disconnect_exactly_once(
    c: GeneralConnection,
    ev: LinkEvent,
    post: GeneralConnection,
    a: LinkAction,
)
    requires
        c.accepts(ev),
        c.step(ev, post, a),
    ensures
        (a is Stop) <==> (post.phase is Disconnected),
        a matches LinkAction::Stop(d) ==> d.0 == c.remote_addr,
        post.phase is Disconnected ==> forall|e2: LinkEvent| !post.accepts(e2),
{
}

} // verus!
