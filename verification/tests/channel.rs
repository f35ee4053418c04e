use murmesh::addr::SocketAddr;
use murmesh::dispatch::Dispatch;
use murmesh::app::State;
use murmesh::mailbox::Mailbox;

#[test]
fn mailbox_delivers_in_push_order() {
    let mut mailbox = Mailbox::new();
    mailbox.push(1u64);
    mailbox.push(2);
    mailbox.push(3);
    assert_eq!(mailbox.recv(), Some(1));
    mailbox.push(4);
    assert_eq!(mailbox.recv(), Some(2));
    assert_eq!(mailbox.recv(), Some(3));
    assert_eq!(mailbox.recv(), Some(4));
}

#[test]
fn closed_and_drained_mailbox_yields_end_of_stream() {
    let mut mailbox = Mailbox::new();
    mailbox.push(9u64);
    mailbox.close();
    assert_eq!(mailbox.recv(), Some(9));
    assert_eq!(mailbox.recv(), None);
    assert_eq!(mailbox.recv(), None);
}

#[test]
fn dispatch_routes_to_the_matching_entry() {
    let a = SocketAddr::new(1, 10);
    let b = SocketAddr::new(2, 20);
    let mut router: Dispatch<Mailbox<u64>> = Dispatch::new();
    router.insert_state(a, Mailbox::new());
    router.insert_state(b, Mailbox::new());
    router.update((a, 100u64));
    router.update((b, 200u64));
    router.update((a, 101u64));
    assert_eq!(router.entries[0].1.queue, vec![100, 101]);
    assert_eq!(router.entries[1].1.queue, vec![200]);
}

#[test]
fn dispatch_handles_routing_tags() {
    let a = SocketAddr::new(1, 10);
    let b = SocketAddr::new(2, 20);
    let mut router: Dispatch<Mailbox<u64>> = Dispatch::new();
    router.insert_state(a, Mailbox::new());
    router.insert_state(b, Mailbox::new());
    router.update(murmesh::message::Route::To(b, 5u64));
    router.update(murmesh::message::Route::ToAll(6u64));
    assert_eq!(router.entries[0].1.queue, vec![6]);
    assert_eq!(router.entries[1].1.queue, vec![5, 6]);
}

#[test]
fn dispatch_insert_replaces_an_existing_entry() {
    let a = SocketAddr::new(1, 10);
    let mut router: Dispatch<Mailbox<u64>> = Dispatch::new();
    router.insert_state(a, Mailbox::new());
    router.update((a, 7u64));
    let mut replacement = Mailbox::new();
    replacement.push(42u64);
    router.insert_state(a, replacement);
    assert_eq!(router.entries.len(), 1);
    assert_eq!(router.entries[0].1.queue, vec![42]);
}
