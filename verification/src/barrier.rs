//! The rendezvous service: a quorum-counting barrier coordinator.
//!
//! The service accumulates exactly one contribution per participant address,
//! up to a configured quorum size. The moment the count is reached it builds
//! the aggregate — the sequence of `(contributed message, participant IP)`
//! pairs in arrival order — delivers that identical aggregate to the
//! outbound sink for every participant address, and signals completion once
//! to a separate finished sink. A duplicate contribution, or one arriving
//! after the quorum is met, is a protocol bug: the sink contract rules both
//! out, and [`Service::try_update`] reports them as [`Violation`]s for a
//! caller that wants to fail loudly, as a fatal condition, rather than
//! silently overwrite or ignore.
//!
//! The coordinator does not sort: the aggregate's order is the arrival
//! order, so participants joining in a different order produce an aggregate
//! that agrees only as a multiset of pairs. Every participant of one run
//! still receives identical content, which [`lemma_broadcast_uniform`]
//! states.

use vstd::prelude::*;

use crate::addr::{IpAddr, SocketAddr};
use crate::app::{can_handle_all, handled_all, lemma_handled_all_snoc, State};

verus! {

/// The aggregate a rendezvous delivers: one `(message, participant IP)` pair
/// per participant, in arrival order.
pub type Message<M> = Vec<(M, IpAddr)>;

/// The aggregate, at the spec level, for a given accumulation.
pub open spec fn aggregate_of<M>(acc: Seq<(SocketAddr, M)>) -> Seq<(M, IpAddr)> {
    acc.map_values(|e: (SocketAddr, M)| (e.1, e.0.ip))
}

/// `batch` is, from position `k` on, the broadcast for the accumulation
/// `acc`: one message per remaining participant, addressed in accumulation
/// order, each carrying the full aggregate.
pub open spec fn batch_matches_from<M>(
    batch: Seq<(SocketAddr, Message<M>)>,
    acc: Seq<(SocketAddr, M)>,
    k: int,
) -> bool {
    &&& batch.len() == acc.len() - k
    &&& forall|t: int|
        0 <= t < batch.len() ==> (#[trigger] batch[t]).0 == acc[k + t].0 && batch[t].1@
            == aggregate_of(acc)
}

/// `batch` is the whole broadcast for the accumulation `acc`.
pub open spec fn batch_matches<M>(
    batch: Seq<(SocketAddr, Message<M>)>,
    acc: Seq<(SocketAddr, M)>,
) -> bool {
    batch_matches_from(batch, acc, 0)
}

/// Every message of one broadcast carries identical content: the aggregate
/// of the accumulation, addressed to each participant in turn. The
/// coordinator does not sort, so the common content is in arrival order.
pub proof fn lemma_broadcast_uniform<M>(
    batch: Seq<(SocketAddr, Message<M>)>,
    acc: Seq<(SocketAddr, M)>,
)
    requires
        batch_matches(batch, acc),
    ensures
        forall|i: int, j: int|
            0 <= i < batch.len() && 0 <= j < batch.len() ==> (#[trigger] batch[i]).1@ == (
            #[trigger] batch[j]).1@,
        forall|i: int|
            0 <= i < batch.len() ==> (#[trigger] batch[i]).0 == acc[i].0 && batch[i].1@
                == aggregate_of(acc),
{
}

/// Two accumulations with the same contributions — however ordered by
/// arrival — yield aggregates of the same content as multisets of
/// `(message, participant IP)` pairs. As sequences the aggregates may
/// differ: the coordinator keeps arrival order and does not sort.
pub proof fn lemma_aggregate_permutation<M>(
    acc1: Seq<(SocketAddr, M)>,
    acc2: Seq<(SocketAddr, M)>,
)
    requires
        acc1.to_multiset() == acc2.to_multiset(),
    ensures
        aggregate_of(acc1).to_multiset() == aggregate_of(acc2).to_multiset(),
    decreases acc1.len(),
{
    broadcast use vstd::seq_lib::group_to_multiset_ensures;
    broadcast use vstd::multiset::group_multiset_axioms;

    if acc1.len() == 0 {
        assert(acc2.to_multiset().len() == 0);
        assert(acc2.len() == 0);
        assert(aggregate_of(acc1) =~= Seq::<(M, IpAddr)>::empty());
        assert(aggregate_of(acc2) =~= Seq::<(M, IpAddr)>::empty());
        assert(aggregate_of(acc1).to_multiset() =~= aggregate_of(acc2).to_multiset());
    } else {
        let x = acc1[0];
        assert(acc1.contains(x));
        assert(acc1.to_multiset().count(x) > 0);
        assert(acc2.to_multiset().count(x) > 0);
        assert(acc2.contains(x));
        let j = choose|j: int| 0 <= j < acc2.len() && acc2[j] == x;
        assert(acc1.remove(0).to_multiset() =~= acc1.to_multiset().remove(x));
        assert(acc2.remove(j).to_multiset() =~= acc2.to_multiset().remove(x));
        lemma_aggregate_permutation(acc1.remove(0), acc2.remove(j));
        let y = (x.1, x.0.ip);
        assert(aggregate_of(acc1.remove(0)) =~= aggregate_of(acc1).remove(0));
        assert(aggregate_of(acc2.remove(j)) =~= aggregate_of(acc2).remove(j));
        assert(aggregate_of(acc1)[0] == y);
        assert(aggregate_of(acc2)[j] == y);
        assert(aggregate_of(acc1).remove(0).to_multiset() =~= aggregate_of(
            acc1,
        ).to_multiset().remove(y));
        assert(aggregate_of(acc2).remove(j).to_multiset() =~= aggregate_of(
            acc2,
        ).to_multiset().remove(y));
        assert(aggregate_of(acc1).contains(y));
        assert(aggregate_of(acc1).to_multiset().count(y) > 0);
        assert(aggregate_of(acc2).contains(y));
        assert(aggregate_of(acc2).to_multiset().count(y) > 0);
        assert(aggregate_of(acc1).to_multiset() =~= aggregate_of(acc2).to_multiset()) by {
            let m1 = aggregate_of(acc1).to_multiset();
            let m2 = aggregate_of(acc2).to_multiset();
            assert(m1.remove(y) =~= m2.remove(y));
            assert(forall|v: (M, IpAddr)|
                v != y ==> m1.count(v) == m1.remove(y).count(v) && m2.count(v) == m2.remove(
                    y,
                ).count(v));
            assert(m1.count(y) == m1.remove(y).count(y) + 1);
            assert(m2.count(y) == m2.remove(y).count(y) + 1);
        }
    }
}

/// A protocol-contract violation: a correct caller never provokes one, and
/// a caller that observes one should treat it as fatal.
#[derive(Debug, Clone, Copy, PartialEq, Eq)]
pub enum Violation {
    /// A contribution arrived although the quorum was already met.
    QuorumExceeded,
    /// A participant address contributed a second time.
    DuplicateContribution,
}

/// The barrier coordinator for one rendezvous of quorum size `count`.
pub struct Service<M, E, F> {
    pub egress: E,
    pub finished: F,
    pub accumulated: Vec<(SocketAddr, M)>,
    pub count: usize,
}

impl<M, E, F> Service<M, E, F> {
    /// Has this participant address already contributed?
    pub open spec fn contributed(self, a: SocketAddr) -> bool {
        exists|i: int|
            0 <= i < self.accumulated@.len() && (#[trigger] self.accumulated@[i]).0 == a
    }

    /// At most one contribution per address, never more than the quorum.
    pub open spec fn wf(self) -> bool {
        &&& forall|i: int, j: int|
            0 <= i < j < self.accumulated@.len() ==> (#[trigger] self.accumulated@[i]).0 != (
            #[trigger] self.accumulated@[j]).0
        &&& self.accumulated@.len() <= self.count
    }

    /// Will this contribution be the one that completes the quorum?
    pub open spec fn will_complete(self, a: SocketAddr) -> bool {
        &&& self.accumulated@.len() < self.count
        &&& !self.contributed(a)
        &&& self.accumulated@.len() + 1 == self.count
    }

    /// A new coordinator with no contributions yet.
    pub fn new(egress: E, finished: F, count: usize) -> (r: Service<M, E, F>)
        ensures
            r.egress == egress,
            r.finished == finished,
            r.count == count,
            r.accumulated@ =~= Seq::<(SocketAddr, M)>::empty(),
            r.wf(),
    {
        Service { egress, finished, accumulated: Vec::new(), count }
    }
}

impl<M, E: State<(SocketAddr, Message<M>)>, F: State<()>> Service<M, E, F> {
    /// Can the outbound side absorb the broadcast that this contribution
    /// would trigger, and the finished sink its signal?
    pub open spec fn broadcast_ready(self, a: SocketAddr, m: M) -> bool {
        &&& forall|batch: Seq<(SocketAddr, Message<M>)>|
            #[trigger] batch_matches::<M>(batch, self.accumulated@.push((a, m)))
                ==> can_handle_all(self.egress, batch)
        &&& self.finished.req(())
    }

    /// The step relation of one accepted contribution: it is recorded; while
    /// the quorum is not yet met nothing else happens, and the moment it is
    /// met the whole broadcast is absorbed by the outbound sink and the
    /// finished sink is signalled once.
    pub open spec fn step_ens(self, a: SocketAddr, m: M, post: Self) -> bool {
        let acc2 = self.accumulated@.push((a, m));
        &&& post.accumulated@ == acc2
        &&& post.count == self.count
        &&& if acc2.len() < self.count {
            post.egress == self.egress && post.finished == self.finished
        } else {
            &&& exists|batch: Seq<(SocketAddr, Message<M>)>|
                #[trigger] batch_matches::<M>(batch, acc2) && handled_all(
                    self.egress,
                    batch,
                    post.egress,
                )
            &&& self.finished.ens((), post.finished)
        }
    }

    /// What a correct caller guarantees per contribution: the quorum is not
    /// yet met, the address is fresh, and — if this contribution completes
    /// the quorum — the outbound side is ready for the broadcast.
    pub open spec fn step_req(self, a: SocketAddr, m: M) -> bool {
        &&& self.wf()
        &&& self.accumulated@.len() < self.count
        &&& !self.contributed(a)
        &&& (self.accumulated@.len() + 1 == self.count ==> self.broadcast_ready(a, m))
    }
}

impl<M: Copy, E: State<(SocketAddr, Message<M>)>, F: State<()>> Service<M, E, F> {
    /// Record one contribution, checking the protocol contract.
    ///
    /// A contribution after the quorum is met, or a second contribution from
    /// one address — in that order of checking — is refused as the matching
    /// [`Violation`] and changes nothing. An accepted contribution steps the
    /// coordinator as [`Service::step_ens`] describes.
    pub fn try_update(&mut self, message: (SocketAddr, M)) -> (r: Result<(), Violation>)
        requires
            old(self).wf(),
            old(self).will_complete(message.0) ==> old(self).broadcast_ready(
                message.0,
                message.1,
            ),
        ensures
            old(self).accumulated@.len() >= old(self).count ==> {
                &&& r == Result::<(), Violation>::Err(Violation::QuorumExceeded)
                &&& *final(self) == *old(self)
            },
            old(self).accumulated@.len() < old(self).count && old(self).contributed(message.0)
                ==> {
                &&& r == Result::<(), Violation>::Err(Violation::DuplicateContribution)
                &&& *final(self) == *old(self)
            },
            old(self).accumulated@.len() < old(self).count && !old(self).contributed(message.0)
                ==> {
                &&& r == Result::<(), Violation>::Ok(())
                &&& old(self).step_ens(message.0, message.1, *final(self))
                &&& final(self).wf()
            },
    {
        let ghost pre = *self;
        let (remote, m) = message;
        if self.accumulated.len() >= self.count {
            return Err(Violation::QuorumExceeded);
        }
        let n = self.accumulated.len();
        let mut i: usize = 0;
        #[verifier::loop_isolation(false)]
        while i < n
            invariant
                *self == pre,
                0 <= i <= n,
                forall|j: int| 0 <= j < i ==> (#[trigger] self.accumulated@[j]).0 != remote,
            decreases n - i,
        {
            if self.accumulated[i].0 == remote {
                proof {
                    assert(pre.contributed(remote));
                }
                return Err(Violation::DuplicateContribution);
            }
            i = i + 1;
        }
        proof {
            assert(!pre.contributed(remote));
        }
        self.accumulated.push((remote, m));
        let ghost acc2 = self.accumulated@;
        proof {
            assert(acc2 == pre.accumulated@.push((remote, m)));
            assert(forall|j: int|
                0 <= j < pre.accumulated@.len() ==> (#[trigger] acc2[j]) == pre.accumulated@[j]);
            assert(self.wf());
        }
        if self.accumulated.len() == self.count {
            let n2 = self.accumulated.len();
            let ghost e0 = self.egress;
            let ghost mut gbatch: Seq<(SocketAddr, Message<M>)> = Seq::empty();
            proof {
                assert(handled_all(e0, gbatch, e0));
                assert forall|rest: Seq<(SocketAddr, Message<M>)>| #[trigger] batch_matches_from(
                    rest,
                    acc2,
                    0,
                ) implies can_handle_all(self.egress, rest) by {
                    assert(batch_matches::<M>(rest, acc2));
                }
            }
            let mut k: usize = 0;
            #[verifier::loop_isolation(false)]
            while k < n2
                invariant
                    0 <= k <= n2,
                    n2 == acc2.len(),
                    self.accumulated@ == acc2,
                    self.count == pre.count,
                    self.finished == pre.finished,
                    gbatch.len() == k,
                    forall|t: int|
                        0 <= t < k ==> (#[trigger] gbatch[t]).0 == acc2[t].0 && gbatch[t].1@
                            == aggregate_of(acc2),
                    handled_all(e0, gbatch, self.egress),
                    forall|rest: Seq<(SocketAddr, Message<M>)>|
                        #[trigger] batch_matches_from(rest, acc2, k as int) ==> can_handle_all(
                            self.egress,
                            rest,
                        ),
                decreases n2 - k,
            {
                let mut agg: Message<M> = Vec::new();
                let mut j: usize = 0;
                #[verifier::loop_isolation(false)]
                while j < n2
                    invariant
                        0 <= j <= n2,
                        agg@ == aggregate_of(acc2).take(j as int),
                    decreases n2 - j,
                {
                    let entry = self.accumulated[j];
                    agg.push((entry.1, entry.0.ip));
                    proof {
                        assert(aggregate_of(acc2)[j as int] == (acc2[j as int].1, acc2[
                            j as int].0.ip));
                        assert(aggregate_of(acc2).take(j + 1 as int) =~= aggregate_of(
                            acc2,
                        ).take(j as int).push(aggregate_of(acc2)[j as int]));
                    }
                    j = j + 1;
                }
                proof {
                    assert(agg@ =~= aggregate_of(acc2));
                }
                let addr_k = self.accumulated[k].0;
                let ghost gagg = agg;
                let ghost cur = self.egress;
                proof {
                    let rest_full = Seq::new((n2 - k) as nat, |t: int| (acc2[k + t].0, gagg));
                    assert(batch_matches_from(rest_full, acc2, k as int));
                    assert(can_handle_all(cur, rest_full));
                    assert(rest_full[0] == (addr_k, gagg));
                    assert(cur.req((addr_k, gagg)));
                }
                self.egress.update((addr_k, agg));
                proof {
                    assert(cur.ens((addr_k, gagg), self.egress));
                    lemma_handled_all_snoc(e0, gbatch, cur, (addr_k, gagg), self.egress);
                    gbatch = gbatch.push((addr_k, gagg));
                    assert forall|rest: Seq<(SocketAddr, Message<M>)>| #[trigger] batch_matches_from(
                        rest,
                        acc2,
                        k + 1 as int,
                    ) implies can_handle_all(self.egress, rest) by {
                        let ext = seq![(addr_k, gagg)] + rest;
                        assert(ext[0] == (addr_k, gagg));
                        assert(forall|t: int| 0 <= t < rest.len() ==> ext[t + 1] == rest[t]);
                        assert(batch_matches_from(ext, acc2, k as int));
                        assert(can_handle_all(cur, ext));
                        assert(ext.drop_first() =~= rest);
                        assert(can_handle_all(self.egress, rest));
                    }
                }
                k = k + 1;
            }
            proof {
                assert(batch_matches::<M>(gbatch, acc2));
            }
            self.finished.update(());
            proof {
                assert(pre.step_ens(remote, m, *self));
            }
        }
        Ok(())
    }
}

/// The coordinator is itself a sink for `(participant address, message)`
/// contributions; its contract rules the two protocol violations out, as
/// the fatal conditions they are.
impl<M: Copy, E: State<(SocketAddr, Message<M>)>, F: State<()>> State<(SocketAddr, M)> for Service<
    M,
    E,
    F,
> {
    open spec fn req(self, m: (SocketAddr, M)) -> bool {
        self.step_req(m.0, m.1)
    }

    open spec fn ens(self, m: (SocketAddr, M), post: Self) -> bool {
        self.step_ens(m.0, m.1, post)
    }

    fn update(&mut self, message: (SocketAddr, M)) {
        // The sink contract rules both violations out, so this is `Ok`.
        let _ = self.try_update(message);
    }
}

} // verus!
