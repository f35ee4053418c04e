//! Envelope adapters.
//!
//! An envelope adapter threads a structural wrapper — an optional value, a
//! timeout-state tag, an address-tagged payload, a routing tag — through an
//! inner transformation stage that only understands the unwrapped payload:
//! it unwraps, invokes the inner stage, and re-wraps the output in the same
//! wrapper shape, preserving the wrapper-carried data untouched.

use vstd::prelude::*;

use crate::addr::SocketAddr;
use crate::app::FunctionalState;

verus! {

/// Lifting lets part of the input bypass the inner stage and still be
/// preserved in the output, without the stage being aware of it.
///
/// `update` takes the inner stage `S` and a wrapped message `M`, and returns
/// the wrapped output. `req` and `ens` play the same role as on
/// [`FunctionalState`], with the adapter's own state threaded alongside the
/// inner stage's.
pub trait Lift<S, M>: Sized {
    /// The wrapped output type.
    type Out;

    /// On which wrapped messages may the composite be fed.
    spec fn req(self, s: S, m: M) -> bool;

    /// How one step relates the states before and after and the output.
    spec fn ens(self, s: S, m: M, post: Self, s2: S, out: Self::Out) -> bool;

    /// Unwrap, invoke the inner stage if the wrapper carries a payload, and
    /// re-wrap the output in the same wrapper shape.
    fn update(&mut self, state: &mut S, message: M) -> (out: Self::Out)
        requires
            old(self).req(*old(state), message),
        ensures
            old(self).ens(*old(state), message, *final(self), *final(state), out),
    ;
}

/// Adapter for optional values: an absent value short-circuits, so the inner
/// stage is not invoked and its state is untouched.
#[derive(Debug, Clone, Copy, PartialEq, Eq, Default)]
pub struct OptionLift;

impl<M, S: FunctionalState<M>> Lift<S, Option<M>> for OptionLift {
    type Out = Option<S::Output>;

    open spec fn req(self, s: S, m: Option<M>) -> bool {
        match m {
            Some(x) => s.req(x),
            None => true,
        }
    }

    open spec fn ens(self, s: S, m: Option<M>, post: Self, s2: S, out: Option<S::Output>) -> bool {
        post == self && match m {
            Some(x) => out is Some && s.ens(x, s2, out->0),
            None => out is None && s2 == s,
        }
    }

    fn update(&mut self, state: &mut S, message: Option<M>) -> (out: Option<S::Output>) {
        match message {
            Some(x) => Some(state.update(x)),
            None => None,
        }
    }
}

/// A timeout-state tag, carrying a timeout key of type `T`.
///
/// The producer of a tagged stream must emit, for a given key, exactly one
/// `Arm`, then zero or more `Reset`, then at most one `Unset`; the consumer
/// must guarantee that no timeout fires for a key after its `Unset`, and
/// should fire at the new deadline after a `Reset`, best effort. Neither side
/// of that contract is enforced by this type.
#[derive(Debug, Clone, Copy, PartialEq, Eq, PartialOrd, Ord, Hash)]
pub enum Timeout<T> {
    Arm(T),
    Reset(T),
    Unset(T),
}

/// Adapter for timeout-state tags: the tag kind passes through unmodified.
#[derive(Debug, Clone, Copy, PartialEq, Eq, Default)]
pub struct TimeoutLift;

impl<M, S: FunctionalState<M>> Lift<S, Timeout<M>> for TimeoutLift {
    type Out = Timeout<S::Output>;

    open spec fn req(self, s: S, m: Timeout<M>) -> bool {
        match m {
            Timeout::Arm(x) => s.req(x),
            Timeout::Reset(x) => s.req(x),
            Timeout::Unset(x) => s.req(x),
        }
    }

    open spec fn ens(self, s: S, m: Timeout<M>, post: Self, s2: S, out: Timeout<S::Output>) -> bool {
        post == self && match m {
            Timeout::Arm(x) => out is Arm && s.ens(x, s2, out->Arm_0),
            Timeout::Reset(x) => out is Reset && s.ens(x, s2, out->Reset_0),
            Timeout::Unset(x) => out is Unset && s.ens(x, s2, out->Unset_0),
        }
    }

    fn update(&mut self, state: &mut S, message: Timeout<M>) -> (out: Timeout<S::Output>) {
        match message {
            Timeout::Arm(x) => Timeout::Arm(state.update(x)),
            Timeout::Reset(x) => Timeout::Reset(state.update(x)),
            Timeout::Unset(x) => Timeout::Unset(state.update(x)),
        }
    }
}

/// An address-tagged payload: a peer address alongside a message.
pub type Transport<T> = (SocketAddr, T);

/// Adapter for address-tagged payloads: the address passes through
/// unmodified.
#[derive(Debug, Clone, Copy, PartialEq, Eq, Default)]
pub struct TransportLift;

impl<M, S: FunctionalState<M>> Lift<S, Transport<M>> for TransportLift {
    type Out = Transport<S::Output>;

    open spec fn req(self, s: S, m: Transport<M>) -> bool {
        s.req(m.1)
    }

    open spec fn ens(self, s: S, m: Transport<M>, post: Self, s2: S, out: Transport<S::Output>) -> bool {
        post == self && out.0 == m.0 && s.ens(m.1, s2, out.1)
    }

    fn update(&mut self, state: &mut S, message: Transport<M>) -> (out: Transport<S::Output>) {
        let (addr, inner) = message;
        (addr, state.update(inner))
    }
}

/// A routing tag: either to the peer keyed `K`, or to every peer.
#[derive(Debug, Clone, Copy, PartialEq, Eq, PartialOrd, Ord, Hash)]
pub enum Route<K, M> {
    To(K, M),
    ToAll(M),
}

impl<K, M> Route<K, M> {
    /// A function that tags any message as destined for the peer keyed `k`.
    pub fn to(k: K) -> (r: impl FnOnce(M) -> Route<K, M>)
        ensures
            forall|m: M| r.requires((m,)),
            forall|m: M, o: Route<K, M>| r.ensures((m,), o) ==> o == Route::<K, M>::To(k, m),
    {
        (move |m: M| -> (o: Route<K, M>)
            ensures
                o == Route::<K, M>::To(k, m),
            {
                Route::To(k, m)
            })
    }
}

/// Adapter for routing tags: the destination key passes through unmodified
/// on the `To` branch.
#[derive(Debug, Default)]
pub struct RouteLift<K>(pub core::marker::PhantomData<K>);

impl<K, M, S: FunctionalState<M>> Lift<S, Route<K, M>> for RouteLift<K> {
    type Out = Route<K, S::Output>;

    open spec fn req(self, s: S, m: Route<K, M>) -> bool {
        match m {
            Route::To(_, x) => s.req(x),
            Route::ToAll(x) => s.req(x),
        }
    }

    open spec fn ens(self, s: S, m: Route<K, M>, post: Self, s2: S, out: Route<K, S::Output>) -> bool {
        post == self && match m {
            Route::To(k, x) => out is To && out->To_0 == k && s.ens(x, s2, out->To_1),
            Route::ToAll(x) => out is ToAll && s.ens(x, s2, out->ToAll_0),
        }
    }

    fn update(&mut self, state: &mut S, message: Route<K, M>) -> (out: Route<K, S::Output>) {
        match message {
            Route::To(dest, x) => Route::To(dest, state.update(x)),
            Route::ToAll(x) => Route::ToAll(state.update(x)),
        }
    }
}

/// The inner stage maps every payload to itself.
pub open spec fn is_identity<M, S: FunctionalState<M, Output = M>>(s: S) -> bool {
    forall|x: M, sp: S, y: M| #[trigger] s.ens(x, sp, y) ==> y == x
}

/// An absent optional value never invokes the inner stage — its state is
/// untouched — and yields an absent output.
pub proof fn lemma_option_short_circuit<M, S: FunctionalState<M>>(
    l: OptionLift,
    s: S,
    post: OptionLift,
    s2: S,
    out: Option<S::Output>,
)
    requires
        l.ens(s, None::<M>, post, s2, out),
    ensures
        out is None,
        s2 == s,
{
}

/// Threading an optional value through an identity inner stage returns a
/// structurally equal wrapper.
pub proof fn lemma_option_lift_round_trip<M, S: FunctionalState<M, Output = M>>(
    l: OptionLift,
    s: S,
    m: Option<M>,
    post: OptionLift,
    s2: S,
    out: Option<M>,
)
    requires
        is_identity::<M, S>(s),
        l.ens(s, m, post, s2, out),
    ensures
        out == m,
{
    match m {
        Some(x) => {
            assert(s.ens(x, s2, out->0));
            assert(out == Some(x));
        },
        None => {},
    }
}

/// Threading a timeout tag through an identity inner stage returns a
/// structurally equal wrapper: the tag kind and the carried key are
/// unchanged.
pub proof fn lemma_timeout_lift_round_trip<M, S: FunctionalState<M, Output = M>>(
    l: TimeoutLift,
    s: S,
    m: Timeout<M>,
    post: TimeoutLift,
    s2: S,
    out: Timeout<M>,
)
    requires
        is_identity::<M, S>(s),
        l.ens(s, m, post, s2, out),
    ensures
        out == m,
{
    match m {
        Timeout::Arm(x) => {
            assert(s.ens(x, s2, out->Arm_0));
            assert(out == Timeout::Arm(x));
        },
        Timeout::Reset(x) => {
            assert(s.ens(x, s2, out->Reset_0));
            assert(out == Timeout::Reset(x));
        },
        Timeout::Unset(x) => {
            assert(s.ens(x, s2, out->Unset_0));
            assert(out == Timeout::Unset(x));
        },
    }
}

/// Threading an address-tagged payload through an identity inner stage
/// returns a structurally equal pair: the address is unchanged.
pub proof fn lemma_transport_lift_round_trip<M, S: FunctionalState<M, Output = M>>(
    l: TransportLift,
    s: S,
    m: Transport<M>,
    post: TransportLift,
    s2: S,
    out: Transport<M>,
)
    requires
        is_identity::<M, S>(s),
        l.ens(s, m, post, s2, out),
    ensures
        out == m,
{
    assert(s.ens(m.1, s2, out.1));
}

/// Threading a routing tag through an identity inner stage returns a
/// structurally equal wrapper: the branch and the destination key are
/// unchanged.
pub proof fn lemma_route_lift_round_trip<K, M, S: FunctionalState<M, Output = M>>(
    l: RouteLift<K>,
    s: S,
    m: Route<K, M>,
    post: RouteLift<K>,
    s2: S,
    out: Route<K, M>,
)
    requires
        is_identity::<M, S>(s),
        l.ens(s, m, post, s2, out),
    ensures
        out == m,
{
    match m {
        Route::To(k, x) => {
            assert(s.ens(x, s2, out->To_1));
            assert(out == Route::To(k, x));
        },
        Route::ToAll(x) => {
            assert(s.ens(x, s2, out->ToAll_0));
            assert(out == Route::<K, M>::ToAll(x));
        },
    }
}

} // verus!
