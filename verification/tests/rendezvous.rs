use murmesh::addr::SocketAddr;
use murmesh::barrier::{Service, Violation};
use murmesh::dispatch::Dispatch;
use murmesh::mailbox::Mailbox;

type Aggregate = Vec<(u64, u128)>;
type Egress = Dispatch<Mailbox<Aggregate>>;
type TestService = Service<u64, Egress, Mailbox<()>>;

fn service_for(addrs: &[SocketAddr]) -> TestService {
    let mut egress = Dispatch::new();
    for &a in addrs {
        egress.insert_state(a, Mailbox::new());
    }
    Service::new(egress, Mailbox::new(), addrs.len())
}

fn outbox<'s>(service: &'s TestService, addr: SocketAddr) -> &'s Mailbox<Aggregate> {
    &service
        .egress
        .entries
        .iter()
        .find(|e| e.0 == addr)
        .expect("no entry for the address")
        .1
}

#[test]
fn quorum_of_three_broadcasts_the_same_aggregate_to_all() {
    let a = SocketAddr::new(0xa, 1000);
    let b = SocketAddr::new(0xb, 1001);
    let c = SocketAddr::new(0xc, 1002);
    let mut service = service_for(&[a, b, c]);
    assert_eq!(service.try_update((a, 5)), Ok(()));
    assert_eq!(service.try_update((b, 1)), Ok(()));
    assert!(service.finished.queue.is_empty());
    assert_eq!(service.try_update((c, 3)), Ok(()));

    let expected: Aggregate = vec![(5, 0xa), (1, 0xb), (3, 0xc)];
    for &addr in &[a, b, c] {
        let delivered = &outbox(&service, addr).queue;
        assert_eq!(delivered.len(), 1);
        assert_eq!(delivered[0], expected);
    }
    // The finished signal fired exactly once.
    assert_eq!(service.finished.queue, vec![()]);
}

#[test]
fn aggregate_content_is_arrival_ordered_but_permutation_equal() {
    // The coordinator does not sort: the aggregate follows arrival order, so
    // two runs with different arrival orders agree as a set of pairs, not as
    // a sequence.
    let a = SocketAddr::new(0xa, 1000);
    let b = SocketAddr::new(0xb, 1001);
    let c = SocketAddr::new(0xc, 1002);

    let mut first = service_for(&[a, b, c]);
    assert_eq!(first.try_update((a, 5)), Ok(()));
    assert_eq!(first.try_update((b, 1)), Ok(()));
    assert_eq!(first.try_update((c, 3)), Ok(()));
    let agg_first = outbox(&first, a).queue[0].clone();

    let mut second = service_for(&[a, b, c]);
    assert_eq!(second.try_update((c, 3)), Ok(()));
    assert_eq!(second.try_update((a, 5)), Ok(()));
    assert_eq!(second.try_update((b, 1)), Ok(()));
    let agg_second = outbox(&second, a).queue[0].clone();

    assert_eq!(agg_first, vec![(5, 0xa), (1, 0xb), (3, 0xc)]);
    assert_eq!(agg_second, vec![(3, 0xc), (5, 0xa), (1, 0xb)]);
    assert_ne!(agg_first, agg_second);

    let mut sorted_first = agg_first.clone();
    sorted_first.sort();
    let mut sorted_second = agg_second.clone();
    sorted_second.sort();
    assert_eq!(sorted_first, sorted_second);
}

#[test]
fn quorum_of_one_broadcasts_immediately() {
    let a = SocketAddr::new(0xa, 1000);
    let mut service = service_for(&[a]);
    assert_eq!(service.try_update((a, 9)), Ok(()));
    assert_eq!(outbox(&service, a).queue, vec![vec![(9, 0xa)]]);
    assert_eq!(service.finished.queue, vec![()]);
}

#[test]
fn duplicate_contribution_is_a_violation() {
    let a = SocketAddr::new(0xa, 1000);
    let b = SocketAddr::new(0xb, 1001);
    let mut service = service_for(&[a, b]);
    assert_eq!(service.try_update((a, 5)), Ok(()));
    assert_eq!(
        service.try_update((a, 6)),
        Err(Violation::DuplicateContribution)
    );
    // Nothing was overwritten and nothing fired.
    assert_eq!(service.accumulated, vec![(a, 5)]);
    assert!(service.finished.queue.is_empty());
}

#[test]
fn contribution_after_quorum_is_a_violation() {
    let a = SocketAddr::new(0xa, 1000);
    let b = SocketAddr::new(0xb, 1001);
    let mut service = service_for(&[a, b]);
    assert_eq!(service.try_update((a, 5)), Ok(()));
    assert_eq!(service.try_update((b, 6)), Ok(()));
    let d = SocketAddr::new(0xd, 1003);
    assert_eq!(service.try_update((d, 7)), Err(Violation::QuorumExceeded));
    // The broadcast and the finished signal did not fire again.
    assert_eq!(outbox(&service, a).queue.len(), 1);
    assert_eq!(service.finished.queue, vec![()]);
}

#[test]
fn short_quorum_stays_collecting() {
    // Quorum two, a single participant contributes: the service stays in its
    // collecting state indefinitely — no broadcast, no finished signal. The
    // layer offers no partial-quorum timeout; that is intentional.
    let a = SocketAddr::new(0xa, 1000);
    let b = SocketAddr::new(0xb, 1001);
    let mut service = service_for(&[a, b]);
    assert_eq!(service.try_update((a, 5)), Ok(()));
    assert!(outbox(&service, a).queue.is_empty());
    assert!(outbox(&service, b).queue.is_empty());
    assert!(service.finished.queue.is_empty());
    assert_eq!(service.accumulated, vec![(a, 5)]);
}
