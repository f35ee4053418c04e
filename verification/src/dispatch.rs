//! The address router: a mapping from peer address to that peer's outbound
//! message sink.
//!
//! Higher-level protocols use it to fan outgoing messages to the correct
//! network link. An entry is registered (or replaced) when a link is
//! established; dispatching to an address with no entry is a protocol bug,
//! not a transient fault, so the sink contract rules it out rather than
//! tolerating it.

use vstd::prelude::*;

use crate::addr::SocketAddr;
use crate::app::State;
use crate::message::Route;

verus! {

/// A mapping from peer address to that peer's outbound sink.
pub struct Dispatch<S> {
    pub entries: Vec<(SocketAddr, S)>,
}

impl<S> Dispatch<S> {
    /// Each address is registered at most once.
    pub open spec fn wf(self) -> bool {
        forall|i: int, j: int|
            0 <= i < j < self.entries@.len() ==> (#[trigger] self.entries@[i]).0 != (
            #[trigger] self.entries@[j]).0
    }

    /// Is an outbound sink registered for `a`?
    pub open spec fn has_state(self, a: SocketAddr) -> bool {
        exists|i: int| 0 <= i < self.entries@.len() && (#[trigger] self.entries@[i]).0 == a
    }

    /// The position of the entry registered for `a`.
    pub open spec fn index_of(self, a: SocketAddr) -> int {
        choose|i: int| 0 <= i < self.entries@.len() && (#[trigger] self.entries@[i]).0 == a
    }

    /// The outbound sink registered for `a`.
    pub open spec fn state_of(self, a: SocketAddr) -> S {
        self.entries@[self.index_of(a)].1
    }

    /// In a well-formed router the registered position is unique.
    pub proof fn lemma_index_unique(self, a: SocketAddr)
        requires
            self.wf(),
            self.has_state(a),
        ensures
            0 <= self.index_of(a) < self.entries@.len(),
            self.entries@[self.index_of(a)].0 == a,
            forall|i: int|
                0 <= i < self.entries@.len() && (#[trigger] self.entries@[i]).0 == a ==> i
                    == self.index_of(a),
    {
    }

    /// An empty router.
    pub fn new() -> (r: Dispatch<S>)
        ensures
            r.entries@ =~= Seq::<(SocketAddr, S)>::empty(),
            r.wf(),
    {
        Dispatch { entries: Vec::new() }
    }

    /// Register, or replace, the outbound sink for a peer.
    pub fn insert_state(&mut self, addr: SocketAddr, state: S)
        requires
            old(self).wf(),
        ensures
            final(self).wf(),
            final(self).has_state(addr),
            final(self).state_of(addr) == state,
            old(self).has_state(addr) ==> final(self).entries@ == old(self).entries@.update(
                old(self).index_of(addr),
                (addr, state),
            ),
            !old(self).has_state(addr) ==> final(self).entries@ == old(self).entries@.push(
                (addr, state),
            ),
    {
        let ghost pre = *self;
        let n = self.entries.len();
        let mut i: usize = 0;
        #[verifier::loop_isolation(false)]
        while i < n
            invariant
                n == self.entries@.len(),
                *self == pre,
                pre.wf(),
                0 <= i <= n,
                forall|j: int| 0 <= j < i ==> (#[trigger] self.entries@[j]).0 != addr,
            decreases n - i,
        {
            if self.entries[i].0 == addr {
                proof {
                    assert(pre.entries@[i as int].0 == addr);
                    assert(pre.has_state(addr));
                    pre.lemma_index_unique(addr);
                    assert(pre.index_of(addr) == i as int);
                }
                let _ = self.entries.remove(i);
                self.entries.insert(i, (addr, state));
                proof {
                    assert(self.entries@ =~= pre.entries@.update(i as int, (addr, state)));
                    assert(forall|k: int|
                        0 <= k < self.entries@.len() ==> (#[trigger] self.entries@[k]).0
                            == pre.entries@[k].0);
                    assert(self.wf());
                    assert(self.entries@[i as int].0 == addr);
                    assert(self.has_state(addr));
                    self.lemma_index_unique(addr);
                    assert(self.index_of(addr) == i as int);
                }
                return ;
            }
            i = i + 1;
        }
        self.entries.push((addr, state));
        proof {
            assert(!pre.has_state(addr));
            let last = self.entries@.len() - 1;
            assert(self.entries@[last].0 == addr);
            assert(forall|k: int| 0 <= k < last ==> self.entries@[k] == pre.entries@[k]);
            assert(self.wf());
            self.lemma_index_unique(addr);
            assert(self.index_of(addr) == last);
        }
    }
}

/// Routing an address-tagged message: the entry registered for the address
/// consumes the payload; every other entry is untouched. An address with no
/// entry is ruled out by the sink contract.
impl<M, S: State<M>> State<(SocketAddr, M)> for Dispatch<S> {
    open spec fn req(self, m: (SocketAddr, M)) -> bool {
        &&& self.wf()
        &&& self.has_state(m.0)
        &&& self.state_of(m.0).req(m.1)
    }

    open spec fn ens(self, m: (SocketAddr, M), post: Self) -> bool {
        exists|s2: S|
            {
                &&& #[trigger] self.state_of(m.0).ens(m.1, s2)
                &&& post.entries@ == self.entries@.update(self.index_of(m.0), (m.0, s2))
            }
    }

    fn update(&mut self, message: (SocketAddr, M)) {
        self.route(message.0, message.1);
    }
}

impl<S> Dispatch<S> {
    /// Dispatch a payload to the entry registered for `addr`; an address
    /// with no entry is a protocol bug and ruled out.
    pub fn route<M>(&mut self, addr: SocketAddr, payload: M) where S: State<M>
        requires
            old(self).wf(),
            old(self).has_state(addr),
            old(self).state_of(addr).req(payload),
        ensures
            exists|s2: S|
                {
                    &&& #[trigger] old(self).state_of(addr).ens(payload, s2)
                    &&& final(self).entries@ == old(self).entries@.update(
                        old(self).index_of(addr),
                        (addr, s2),
                    )
                },
    {
        let ghost pre = *self;
        proof {
            pre.lemma_index_unique(addr);
        }
        let n = self.entries.len();
        let mut i: usize = 0;
        #[verifier::loop_isolation(false)]
        while i < n
            invariant
                n == self.entries@.len(),
                *self == pre,
                0 <= i <= n,
                pre.wf() && pre.has_state(addr),
                forall|j: int| 0 <= j < i ==> (#[trigger] self.entries@[j]).0 != addr,
            decreases n - i,
        {
            if self.entries[i].0 == addr {
                proof {
                    pre.lemma_index_unique(addr);
                    assert(i as int == pre.index_of(addr));
                }
                let (a2, mut s) = self.entries.remove(i);
                s.update(payload);
                let ghost s2 = s;
                self.entries.insert(i, (a2, s));
                proof {
                    assert(self.entries@ =~= pre.entries@.update(i as int, (addr, s2)));
                    assert(pre.state_of(addr).ens(payload, s2));
                }
                return ;
            }
            i = i + 1;
        }
        proof {
            pre.lemma_index_unique(addr);
            assert(false);
        }
    }
}

impl<S> Dispatch<S> {
    /// Dispatch one payload to every registered entry.
    pub fn route_all<M: Copy>(&mut self, payload: M) where S: State<M>
        requires
            old(self).wf(),
            forall|i: int|
                0 <= i < old(self).entries@.len() ==> (#[trigger] old(
                    self,
                ).entries@[i]).1.req(payload),
        ensures
            final(self).wf(),
            final(self).entries@.len() == old(self).entries@.len(),
            forall|i: int|
                0 <= i < old(self).entries@.len() ==> (#[trigger] final(self).entries@[i]).0
                    == old(self).entries@[i].0 && old(self).entries@[i].1.ens(
                    payload,
                    final(self).entries@[i].1,
                ),
    {
        let n = self.entries.len();
        let mut i: usize = 0;
        #[verifier::loop_isolation(false)]
        while i < n
            invariant
                0 <= i <= n,
                n == self.entries@.len(),
                forall|j: int|
                    0 <= j < i ==> (#[trigger] self.entries@[j]).0 == old(self).entries@[j].0
                        && old(self).entries@[j].1.ens(payload, self.entries@[j].1),
                forall|j: int| i <= j < n ==> (#[trigger] self.entries@[j]) == old(
                    self,
                ).entries@[j],
            decreases n - i,
        {
            let ghost snap = self.entries@;
            let (a2, mut s) = self.entries.remove(i);
            s.update(payload);
            let ghost s2 = s;
            self.entries.insert(i, (a2, s));
            proof {
                assert(self.entries@ =~= snap.update(i as int, (a2, s2)));
            }
            i = i + 1;
        }
        proof {
            assert(self.wf());
        }
    }
}

/// Routing-tagged messages dispatch to one entry or to all.
impl<M: Copy, S: State<M>> State<Route<SocketAddr, M>> for Dispatch<S> {
    open spec fn req(self, m: Route<SocketAddr, M>) -> bool {
        match m {
            Route::To(a, x) => self.wf() && self.has_state(a) && self.state_of(a).req(x),
            Route::ToAll(x) => self.wf() && forall|i: int|
                0 <= i < self.entries@.len() ==> (#[trigger] self.entries@[i]).1.req(x),
        }
    }

    open spec fn ens(self, m: Route<SocketAddr, M>, post: Self) -> bool {
        match m {
            Route::To(a, x) => exists|s2: S|
                {
                    &&& #[trigger] self.state_of(a).ens(x, s2)
                    &&& post.entries@ == self.entries@.update(self.index_of(a), (a, s2))
                },
            Route::ToAll(x) => {
                &&& post.entries@.len() == self.entries@.len()
                &&& forall|i: int|
                    0 <= i < self.entries@.len() ==> (#[trigger] post.entries@[i]).0
                        == self.entries@[i].0 && self.entries@[i].1.ens(x, post.entries@[i].1)
            },
        }
    }

    fn update(&mut self, message: Route<SocketAddr, M>) {
        match message {
            Route::To(a, x) => self.route(a, x),
            Route::ToAll(x) => self.route_all(x),
        }
    }
}

} // verus!
