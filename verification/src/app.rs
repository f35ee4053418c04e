//! The handler/processor composition model.
//!
//! A [`State`] is a stateful message sink: `update` consumes a message and
//! produces only side effects on the owned state. A [`FunctionalState`] is a
//! stateful transformation stage: `update` consumes a message and produces an
//! output message. [`Install`] composes a transformation stage with a
//! downstream sink, itself forming a sink, so pipelines of any length can be
//! assembled. [`Closure`] wraps an ordinary function as a stage and
//! [`Inspect`] taps a sink into a pipeline as a pass-through stage.
//!
//! Each trait carries a pair of spec functions: `req` says on which messages
//! the unit may be fed in a given state, and `ens` relates the state before a
//! step, the message, the state after, and (for stages) the output. Every
//! impl pins these down, so a whole pipeline's behaviour follows from the
//! behaviour of its parts.

use vstd::prelude::*;

verus! {

/// A stateful message sink: consumes messages, produces only side effects.
pub trait State<M>: Sized {
    /// On which messages may this sink be fed, in this state.
    spec fn req(self, m: M) -> bool;

    /// How one step relates the state before to the state after.
    spec fn ens(self, m: M, post: Self) -> bool;

    /// Consume one message.
    fn update(&mut self, message: M)
        requires
            old(self).req(message),
        ensures
            old(self).ens(message, *final(self)),
    ;
}

/// A stateful transformation stage: consumes a message, produces an output.
pub trait FunctionalState<M>: Sized {
    /// The type of the produced output message.
    type Output;

    /// On which messages may this stage be fed, in this state.
    spec fn req(self, m: M) -> bool;

    /// How one step relates the state before, the message, the state after
    /// and the produced output.
    spec fn ens(self, m: M, post: Self, out: Self::Output) -> bool;

    /// Consume one message and produce the output message.
    fn update(&mut self, input: M) -> (out: Self::Output)
        requires
            old(self).req(input),
        ensures
            old(self).ens(input, *final(self), out),
    ;

    /// Compose this stage with a downstream sink, forming a composite sink.
    fn install<S>(self, state: S) -> (r: Install<Self, S>)
        ensures
            r.0 == self,
            r.1 == state,
    {
        Install(self, state)
    }

    /// Wrap this stage so that an envelope adapter threads a structural
    /// wrapper through it.
    fn lift<L>(self, lift: L) -> (r: Lift<Self, L>)
        ensures
            r.0 == self,
            r.1 == lift,
    {
        Lift(self, lift)
    }
}

/// Can the sink `s` absorb the whole sequence of messages `msgs`, fed in
/// order, whatever intermediate states its own step relation allows?
pub open spec fn can_handle_all<M, S: State<M>>(s: S, msgs: Seq<M>) -> bool
    decreases msgs.len(),
{
    msgs.len() > 0 ==> {
        &&& s.req(msgs[0])
        &&& forall|mid: S| #[trigger] s.ens(msgs[0], mid) ==> can_handle_all(mid, msgs.drop_first())
    }
}

/// The sink stepped from `s` to `post` by absorbing exactly the messages
/// `msgs`, in order.
pub open spec fn handled_all<M, S: State<M>>(s: S, msgs: Seq<M>, post: S) -> bool
    decreases msgs.len(),
{
    if msgs.len() == 0 {
        post == s
    } else {
        exists|mid: S| #[trigger] s.ens(msgs[0], mid) && handled_all(mid, msgs.drop_first(), post)
    }
}

/// Absorbing one more message extends an absorbed sequence by one.
pub proof fn lemma_handled_all_snoc<M, S: State<M>>(s: S, msgs: Seq<M>, mid: S, m: M, post: S)
    requires
        handled_all(s, msgs, mid),
        mid.ens(m, post),
    ensures
        handled_all(s, msgs.push(m), post),
    decreases msgs.len(),
{
    if msgs.len() == 0 {
        assert(msgs.push(m)[0] == m);
        assert(msgs.push(m).drop_first() =~= Seq::<M>::empty());
        assert(handled_all(post, msgs.push(m).drop_first(), post));
        assert(s.ens(msgs.push(m)[0], post));
    } else {
        let w = choose|w: S| #[trigger] s.ens(msgs[0], w) && handled_all(w, msgs.drop_first(), mid);
        lemma_handled_all_snoc(w, msgs.drop_first(), mid, m, post);
        assert(msgs.push(m)[0] == msgs[0]);
        assert(msgs.push(m).drop_first() =~= msgs.drop_first().push(m));
        assert(s.ens(msgs.push(m)[0], w) && handled_all(w, msgs.push(m).drop_first(), post));
    }
}

/// Composition of a transformation stage with a downstream sink.
///
/// Feeding the composite feeds the stage, then feeds the stage's output into
/// the sink.
pub struct Install<A, S>(pub A, pub S);

impl<M, A: FunctionalState<M>, S: State<A::Output>> State<M> for Install<A, S> {
    open spec fn req(self, m: M) -> bool {
        &&& self.0.req(m)
        &&& forall|mid: A, out: A::Output| #[trigger] self.0.ens(m, mid, out) ==> self.1.req(out)
    }

    open spec fn ens(self, m: M, post: Self) -> bool {
        exists|out: A::Output| #[trigger] self.0.ens(m, post.0, out) && self.1.ens(out, post.1)
    }

    fn update(&mut self, message: M) {
        let ghost pre = *self;
        let ghost m = message;
        let out = self.0.update(message);
        let ghost gout = out;
        self.1.update(out);
        proof {
            assert(pre.0.ens(m, self.0, gout) && pre.1.ens(gout, self.1));
        }
    }
}

/// An ordinary function wrapped as a transformation stage.
///
/// The function is invoked once per message; its own contract becomes the
/// stage's contract.
#[derive(Debug, Clone)]
pub struct Closure<F>(pub F);

impl<F> From<F> for Closure<F> {
    fn from(value: F) -> (r: Self) {
        Closure(value)
    }
}

impl<F> vstd::std_specs::convert::FromSpecImpl<F> for Closure<F> {
    open spec fn obeys_from_spec() -> bool {
        true
    }

    open spec fn from_spec(value: F) -> Self {
        Closure(value)
    }
}

impl<M, O, F: Fn(M) -> O> FunctionalState<M> for Closure<F> {
    type Output = O;

    open spec fn req(self, m: M) -> bool {
        call_requires(self.0, (m,))
    }

    open spec fn ens(self, m: M, post: Self, out: O) -> bool {
        post == self && call_ensures(self.0, (m,), out)
    }

    fn update(&mut self, input: M) -> (out: O) {
        (self.0)(input)
    }
}

/// An application state machine: consumes a numbered, opaque operation and
/// produces an opaque result. Users implement this for the protocol they
/// build on the framework; any impl is usable as a transformation stage on
/// `(operation number, operation bytes)` messages.
pub trait App: Sized {
    /// On which operations may the application be fed, in this state.
    spec fn app_req(self, op_num: u32, op: Seq<u8>) -> bool;

    /// How one operation relates the state before, the state after and the
    /// produced result.
    spec fn app_ens(self, op_num: u32, op: Seq<u8>, post: Self, result: Seq<u8>) -> bool;

    /// Execute one operation.
    fn update(&mut self, op_num: u32, op: &[u8]) -> (result: Vec<u8>)
        requires
            old(self).app_req(op_num, op@),
        ensures
            old(self).app_ens(op_num, op@, *final(self), result@),
    ;
}

impl<'i, A: App> FunctionalState<(u32, &'i [u8])> for A {
    type Output = Vec<u8>;

    open spec fn req(self, m: (u32, &'i [u8])) -> bool {
        self.app_req(m.0, m.1@)
    }

    open spec fn ens(self, m: (u32, &'i [u8]), post: Self, out: Vec<u8>) -> bool {
        self.app_ens(m.0, m.1@, post, out@)
    }

    fn update(&mut self, input: (u32, &'i [u8])) -> (out: Vec<u8>) {
        let (op_num, op) = input;
        App::update(self, op_num, op)
    }
}

/// A sink tapped into a pipeline as a pass-through transformation stage.
///
/// Each message is forwarded to the wrapped sink as a side observation and
/// passed on unchanged as the stage's output.
pub struct Inspect<S>(pub S);

impl<M: Copy, S: State<M>> FunctionalState<M> for Inspect<S> {
    type Output = M;

    open spec fn req(self, m: M) -> bool {
        self.0.req(m)
    }

    open spec fn ens(self, m: M, post: Self, out: M) -> bool {
        out == m && self.0.ens(m, post.0)
    }

    fn update(&mut self, input: M) -> (out: M) {
        self.0.update(input);
        input
    }
}

/// A transformation stage wrapped by an envelope adapter.
///
/// The adapter `L` threads a structural wrapper through the inner stage `S`:
/// the composite is itself a stage on the wrapped message type.
pub struct Lift<S, L>(pub S, pub L);

impl<M, S, L: crate::message::Lift<S, M>> FunctionalState<M> for Lift<S, L> {
    type Output = L::Out;

    open spec fn req(self, m: M) -> bool {
        self.1.req(self.0, m)
    }

    open spec fn ens(self, m: M, post: Self, out: L::Out) -> bool {
        self.1.ens(self.0, m, post.1, post.0, out)
    }

    fn update(&mut self, input: M) -> (out: L::Out) {
        self.1.update(&mut self.0, input)
    }
}

} // verus!
