use murmesh::addr::SocketAddr;
use murmesh::frame::encode_frame;
use murmesh::mailbox::Mailbox;
use murmesh::tcp::{Disconnected, GeneralConnection, LinkAction, LinkEvent, LinkPhase};
use murmesh::udp::In;

#[test]
fn received_frames_are_delivered_with_the_remote_address() {
    let remote = SocketAddr::new(0xfe, 9000);
    let mut link = GeneralConnection::new(remote);
    let action = link.on_event(LinkEvent::Received(b"ping".to_vec()));
    match action {
        LinkAction::Deliver(addr, payload) => {
            assert_eq!(addr, remote);
            assert_eq!(payload, b"ping".to_vec());
        }
        other => panic!("expected a delivery, got {:?}", other),
    }
    assert_eq!(link.phase, LinkPhase::Active);
}

#[test]
fn outbound_messages_are_framed_before_writing() {
    let remote = SocketAddr::new(0xfe, 9000);
    let mut link = GeneralConnection::new(remote);
    let action = link.on_event(LinkEvent::Outbound(b"pong".to_vec()));
    match action {
        LinkAction::Write(bytes) => assert_eq!(bytes, encode_frame(&b"pong".to_vec())),
        other => panic!("expected a write, got {:?}", other),
    }
    assert_eq!(link.phase, LinkPhase::Active);
}

#[test]
fn mailbox_end_of_stream_closes_the_local_half() {
    let remote = SocketAddr::new(0xfe, 9000);
    let mut link = GeneralConnection::new(remote);
    let action = link.on_event(LinkEvent::OutboundClosed);
    assert!(matches!(action, LinkAction::Idle));
    assert_eq!(link.phase, LinkPhase::LocalClosing);
    // Inbound is still served after the local close.
    let action = link.on_event(LinkEvent::Received(b"late".to_vec()));
    assert!(matches!(action, LinkAction::Deliver(_, _)));
    assert_eq!(link.phase, LinkPhase::LocalClosing);
}

#[test]
fn read_failure_notifies_disconnect_exactly_once() {
    // The peer closing its socket surfaces as a read failure: the notifier
    // fires once, with the correct remote address, and the driver exits — a
    // disconnected machine accepts no further event.
    let remote = SocketAddr::new(0xab, 4321);
    let mut link = GeneralConnection::new(remote);
    let _ = link.on_event(LinkEvent::Received(b"first".to_vec()));
    let action = link.on_event(LinkEvent::ReadFailed);
    let mut notifier: Mailbox<Disconnected> = Mailbox::new();
    match action {
        LinkAction::Stop(notice) => {
            assert_eq!(notice, Disconnected(remote));
            notifier.push(notice);
        }
        other => panic!("expected a stop, got {:?}", other),
    }
    assert_eq!(link.phase, LinkPhase::Disconnected);
    assert_eq!(notifier.queue, vec![Disconnected(remote)]);
}

#[test]
fn write_failure_is_terminal_too() {
    let remote = SocketAddr::new(0xab, 4321);
    let mut link = GeneralConnection::new(remote);
    let action = link.on_event(LinkEvent::WriteFailed);
    match action {
        LinkAction::Stop(notice) => assert_eq!(notice.0, remote),
        other => panic!("expected a stop, got {:?}", other),
    }
    assert_eq!(link.phase, LinkPhase::Disconnected);
}

#[test]
fn datagram_is_delivered_before_the_next_receive() {
    // One datagram to address X with payload "hello" reaches the downstream
    // sink as (X, "hello") synchronously, before the port's driver turns to
    // its next receive.
    let x = SocketAddr::new(0x7f00_0001, 5353);
    let mut port = In::new(Mailbox::new());
    port.deliver(x, b"hello".to_vec());
    assert_eq!(port.state.queue, vec![(x, b"hello".to_vec())]);
}
