//! Small transition primitives that latch on completion and compose into workflows.
use std::sync::Arc;
use vstd::prelude::*;

verus! {

/// The outcome of one attempted transition.
#[derive(Debug)]
pub enum TransitionResult<N, E> {
    /// The stimulus was ignored; the transition stays where it is.
    NoTransition,
    /// The transition is finished and produced a value.
    Done(N),
    /// The transition failed and must not continue.
    Error(E),
}

impl<N, E> TransitionResult<N, E> {
    /// The outcome ends the transition.
    pub open spec fn is_terminal_spec(&self) -> bool {
        !(self is NoTransition)
    }

    /// Whether this outcome ends the transition (it is `Done` or `Error`).
    pub fn is_terminal(&self) -> (b: bool)
        ensures
            b == !(self is NoTransition),
    {
        match self {
            TransitionResult::NoTransition => false,
            _ => true,
        }
    }
}

/// The outcome as handed out by the primitives: payloads are shared, so a latched
/// result can be returned again and again unchanged.
pub type Shared<N, E> = TransitionResult<Arc<N>, Arc<E>>;

/// A shared copy of a shared outcome.
pub fn share_result<N, E>(r: &Shared<N, E>) -> (s: Shared<N, E>)
    ensures
        s == *r,
{
    match r {
        TransitionResult::NoTransition => TransitionResult::NoTransition,
        TransitionResult::Done(n) => TransitionResult::Done(n.clone()),
        TransitionResult::Error(e) => TransitionResult::Error(e.clone()),
    }
}

/// Moves the payload of an outcome behind shared pointers.
pub fn into_shared<N, E>(r: TransitionResult<N, E>) -> (s: Shared<N, E>)
    ensures
        s == shared_of(r),
{
    match r {
        TransitionResult::NoTransition => TransitionResult::NoTransition,
        TransitionResult::Done(n) => TransitionResult::Done(Arc::new(n)),
        TransitionResult::Error(e) => TransitionResult::Error(Arc::new(e)),
    }
}

/// The shared form of an outcome.
pub open spec fn shared_of<N, E>(r: TransitionResult<N, E>) -> Shared<N, E> {
    match r {
        TransitionResult::NoTransition => TransitionResult::NoTransition,
        TransitionResult::Done(n) => TransitionResult::Done(Arc::new(n)),
        TransitionResult::Error(e) => TransitionResult::Error(Arc::new(e)),
    }
}

/// The uniform "advance one step" operation of every transition.
///
/// `latched` is the terminal outcome once one was produced; from then on every call
/// returns it again and leaves the transition untouched.
pub trait AsyncTransition<A, C, N, E>: Sized {
    /// The transition can be driven (its functions accept every input).
    spec fn ready(&self) -> bool;

    /// The terminal outcome, once one was produced.
    spec fn latched(&self) -> Option<Shared<N, E>>;

    /// What one call does while nothing is latched: from `self`, on the given stimulus,
    /// it may return `result` and become `next`.
    spec fn advances(&self, context: C, arguments: A, result: Shared<N, E>, next: Self) -> bool;

    /// Attempts to move on, given a context and arguments.
    fn transition(&mut self, context: C, arguments: &A) -> (r: Shared<N, E>)
        requires
            old(self).ready(),
        ensures
            final(self).ready(),
            old(self).latched() is Some ==> r == old(self).latched()->0 && *final(self) == *old(self),
            old(self).latched() is None ==> old(self).advances(context, *arguments, r, *final(self)),
            r is NoTransition ==> final(self).latched() is None,
            !(r is NoTransition) ==> final(self).latched() == Some(r),
    ;
}

/// A single transition function that latches on its first terminal outcome.
pub struct Next<T, N, E> {
    transition_fn: T,
    done: Option<Shared<N, E>>,
}

impl<T, N, E> Next<T, N, E> {
    /// The transition function that this step runs.
    pub closed spec fn function(&self) -> T {
        self.transition_fn
    }

    /// Creates a step around the given transition function.
    pub fn new<A, C>(transition_fn: T) -> (r: Self)
        where
            T: Fn(C, &A) -> TransitionResult<N, E>,
        requires
            forall|c: C, a: &A| #[trigger] transition_fn.requires((c, a)),
        ensures
            r.function() == transition_fn,
            <Self as AsyncTransition<A, C, N, E>>::ready(&r),
            <Self as AsyncTransition<A, C, N, E>>::latched(&r) is None,
    {
        Next { transition_fn, done: None }
    }

}

impl<A, C, N, E, T: Fn(C, &A) -> TransitionResult<N, E>> AsyncTransition<A, C, N, E> for Next<
    T,
    N,
    E,
> {
    closed spec fn ready(&self) -> bool {
        &&& forall|c: C, a: &A| #[trigger] self.transition_fn.requires((c, a))
        &&& !(self.done matches Some(TransitionResult::NoTransition))
    }

    closed spec fn latched(&self) -> Option<Shared<N, E>> {
        self.done
    }

    closed spec fn advances(&self, context: C, arguments: A, result: Shared<N, E>, next: Self) -> bool {
        exists|out: TransitionResult<N, E>|
            #[trigger] self.transition_fn.ensures((context, &arguments), out) && result == shared_of(out)
                && next.transition_fn == self.transition_fn
    }

    fn transition(&mut self, context: C, arguments: &A) -> (r: Shared<N, E>) {
        if let Some(prev) = &self.done {
            return share_result(prev);
        }
        let out = (self.transition_fn)(context, arguments);
        let r = into_shared(out);
        if r.is_terminal() {
            self.done = Some(share_result(&r));
        }
        r
    }
}

/// A transition that threads a piece of state through every call, including the
/// calls that leave it where it is.
pub struct WithState<T, S, N, E> {
    transition_fn: T,
    state: Option<S>,
    done: Option<Shared<N, E>>,
}

impl<T, S, N, E> WithState<T, S, N, E> {
    /// The state carried into the next call.
    pub closed spec fn state(&self) -> S {
        self.state->0
    }

    /// The transition function.
    pub closed spec fn function(&self) -> T {
        self.transition_fn
    }

    /// Creates the transition with its initial state.
    pub fn new<A, C>(initial_state: S, transition_fn: T) -> (r: Self)
        where
            T: Fn(C, S, &A) -> (TransitionResult<N, E>, S),
        requires
            forall|c: C, s: S, a: &A| #[trigger] transition_fn.requires((c, s, a)),
        ensures
            r.state() == initial_state,
            r.function() == transition_fn,
            <Self as AsyncTransition<A, C, N, E>>::ready(&r),
            <Self as AsyncTransition<A, C, N, E>>::latched(&r) is None,
    {
        WithState { transition_fn, state: Some(initial_state), done: None }
    }

}

impl<A, C, N, E, S, T: Fn(C, S, &A) -> (TransitionResult<N, E>, S)> AsyncTransition<
    A,
    C,
    N,
    E,
> for WithState<T, S, N, E> {
    closed spec fn ready(&self) -> bool {
        &&& forall|c: C, s: S, a: &A| #[trigger] self.transition_fn.requires((c, s, a))
        &&& self.state is Some
        &&& !(self.done matches Some(TransitionResult::NoTransition))
    }

    closed spec fn latched(&self) -> Option<Shared<N, E>> {
        self.done
    }

    closed spec fn advances(&self, context: C, arguments: A, result: Shared<N, E>, next: Self) -> bool {
        exists|out: (TransitionResult<N, E>, S)|
            #[trigger] self.transition_fn.ensures((context, self.state->0, &arguments), out)
                && result == shared_of(out.0) && next.state == Some(out.1)
                && next.transition_fn == self.transition_fn
    }

    fn transition(&mut self, context: C, arguments: &A) -> (r: Shared<N, E>) {
        if let Some(prev) = &self.done {
            return share_result(prev);
        }
        let inner = self.state.take().unwrap();
        let (out, new_state) = (self.transition_fn)(context, inner, arguments);
        self.state = Some(new_state);
        let r = into_shared(out);
        if r.is_terminal() {
            self.done = Some(share_result(&r));
        }
        r
    }
}

/// Like `WithState`, but the initial state is derived from the first stimulus.
pub struct WithLazyState<I, T, S, N, E> {
    init_fn: I,
    transition_fn: T,
    state: Option<S>,
    done: Option<Shared<N, E>>,
}

impl<I, T, S, N, E> WithLazyState<I, T, S, N, E> {
    /// The state, once the first stimulus has created it.
    pub closed spec fn state(&self) -> Option<S> {
        self.state
    }

    /// Creates the transition; `init_fn` builds the state from the first arguments.
    pub fn new<A, C>(init_fn: I, transition_fn: T) -> (r: Self)
        where
            I: Fn(&A) -> S,
            T: Fn(C, S, &A) -> (TransitionResult<N, E>, S),
        requires
            forall|a: &A| #[trigger] init_fn.requires((a,)),
            forall|c: C, s: S, a: &A| #[trigger] transition_fn.requires((c, s, a)),
        ensures
            r.state() is None,
            <Self as AsyncTransition<A, C, N, E>>::ready(&r),
            <Self as AsyncTransition<A, C, N, E>>::latched(&r) is None,
    {
        WithLazyState { init_fn, transition_fn, state: None, done: None }
    }

}

impl<A, C, N, E, S, I: Fn(&A) -> S, T: Fn(C, S, &A) -> (TransitionResult<N, E>, S)> AsyncTransition<
    A,
    C,
    N,
    E,
> for WithLazyState<I, T, S, N, E> {
    closed spec fn ready(&self) -> bool {
        &&& forall|a: &A| #[trigger] self.init_fn.requires((a,))
        &&& forall|c: C, s: S, a: &A| #[trigger] self.transition_fn.requires((c, s, a))
        &&& !(self.done matches Some(TransitionResult::NoTransition))
        &&& self.done is Some ==> self.state is Some
    }

    closed spec fn latched(&self) -> Option<Shared<N, E>> {
        self.done
    }

    closed spec fn advances(&self, context: C, arguments: A, result: Shared<N, E>, next: Self) -> bool {
        exists|start: S, out: (TransitionResult<N, E>, S)|
            {
                &&& match self.state {
                    Some(s) => start == s,
                    None => self.init_fn.ensures((&arguments,), start),
                }
                &&& #[trigger] self.transition_fn.ensures((context, start, &arguments), out)
                &&& result == shared_of(out.0)
                &&& next.state == Some(out.1)
                &&& next.init_fn == self.init_fn
                &&& next.transition_fn == self.transition_fn
            }
    }

    fn transition(&mut self, context: C, arguments: &A) -> (r: Shared<N, E>) {
        if let Some(prev) = &self.done {
            return share_result(prev);
        }
        let inner = match self.state.take() {
            Some(s) => s,
            None => (self.init_fn)(arguments),
        };
        let ghost start = inner;
        let pair = (self.transition_fn)(context, inner, arguments);
        let ghost out_g = pair;
        let (out, new_state) = pair;
        self.state = Some(new_state);
        let r = into_shared(out);
        if r.is_terminal() {
            self.done = Some(share_result(&r));
        }
        assert(self.transition_fn.ensures((context, start, arguments), out_g));
        r
    }
}

/// How far a chain has got.
pub enum Stage<M, N, E> {
    /// The first transition has not finished.
    Empty,
    /// The first transition finished with this outcome.
    First(Shared<M, E>),
    /// The second transition finished with this outcome.
    Second(Shared<N, E>),
}

/// Two transitions run one after the other: the second only sees stimuli once the
/// first is done, and it receives the first one's value as its arguments.
pub struct Chained<F, G, M, N, E> {
    first: F,
    second: G,
    stage: Stage<M, N, E>,
}

impl<F, G, M, N, E> Chained<F, G, M, N, E> {
    /// The first transition.
    pub closed spec fn first(&self) -> F {
        self.first
    }

    /// The second transition.
    pub closed spec fn second(&self) -> G {
        self.second
    }

    /// Chains `first` and `second`, neither of which has finished yet.
    pub fn new<A, C>(first: F, second: G) -> (r: Self)
        where
            F: AsyncTransition<A, C, M, E>,
            G: AsyncTransition<M, C, N, E>,
        requires
            first.ready(),
            second.ready(),
            first.latched() is None,
            second.latched() is None,
        ensures
            r.first() == first,
            r.second() == second,
            <Self as AsyncTransition<A, C, N, E>>::ready(&r),
            <Self as AsyncTransition<A, C, N, E>>::latched(&r) is None,
    {
        Chained { first, second, stage: Stage::Empty }
    }
}

impl<A, C, M, N, E, F: AsyncTransition<A, C, M, E>, G: AsyncTransition<M, C, N, E>> AsyncTransition<
    A,
    C,
    N,
    E,
> for Chained<F, G, M, N, E> {
    closed spec fn ready(&self) -> bool {
        &&& self.first.ready()
        &&& self.second.ready()
        &&& match self.stage {
            Stage::Empty => self.first.latched() is None && self.second.latched() is None,
            Stage::First(x) => self.first.latched() == Some(x) && !(x is NoTransition)
                && self.second.latched() is None,
            Stage::Second(y) => self.second.latched() == Some(y) && !(y is NoTransition)
                && self.first.latched() matches Some(TransitionResult::Done(_)),
        }
    }

    closed spec fn latched(&self) -> Option<Shared<N, E>> {
        match self.stage {
            Stage::First(TransitionResult::Error(e)) => Some(TransitionResult::Error(e)),
            Stage::Second(y) => Some(y),
            _ => None,
        }
    }

    closed spec fn advances(&self, context: C, arguments: A, result: Shared<N, E>, next: Self) -> bool {
        match self.stage {
            Stage::First(TransitionResult::Done(m)) => {
                &&& next.first == self.first
                &&& self.second.advances(context, *m, result, next.second)
            },
            _ => {
                &&& next.second == self.second
                &&& exists|r1: Shared<M, E>|
                    #[trigger] self.first.advances(context, arguments, r1, next.first) && result
                        == match r1 {
                        TransitionResult::Error(e) => TransitionResult::<Arc<N>, Arc<E>>::Error(e),
                        _ => TransitionResult::NoTransition,
                    }
            },
        }
    }

    fn transition(&mut self, context: C, arguments: &A) -> (r: Shared<N, E>) {
        match &self.stage {
            Stage::Empty => {
                let r1 = self.first.transition(context, arguments);
                let r = match &r1 {
                    TransitionResult::Error(e) => TransitionResult::Error(e.clone()),
                    _ => TransitionResult::NoTransition,
                };
                if r1.is_terminal() {
                    self.stage = Stage::First(r1);
                }
                r
            },
            Stage::First(TransitionResult::Done(m)) => {
                let m = m.clone();
                let r2 = self.second.transition(context, &*m);
                if r2.is_terminal() {
                    self.stage = Stage::Second(share_result(&r2));
                }
                r2
            },
            Stage::First(TransitionResult::Error(e)) => TransitionResult::Error(e.clone()),
            Stage::First(TransitionResult::NoTransition) => TransitionResult::NoTransition,
            Stage::Second(r2) => share_result(r2),
        }
    }
}

/// Chaining keeps the second transition blind: while the first one has not finished
/// with a value, a call leaves the second untouched, and an error of the first is
/// handed on unchanged and becomes the chain's own final outcome.
pub proof fn chained_ordering<A, C, M, N, E, F: AsyncTransition<A, C, M, E>, G: AsyncTransition<
    M,
    C,
    N,
    E,
>>(chain: Chained<F, G, M, N, E>, context: C, arguments: A, result: Shared<N, E>, next: Chained<
    F,
    G,
    M,
    N,
    E,
>)
    requires
        chain.ready(),
        chain.latched() is None,
        !(chain.first().latched() matches Some(TransitionResult::Done(_))),
        chain.advances(context, arguments, result, next),
    ensures
        next.second() == chain.second(),
        exists|r1: Shared<M, E>|
            #[trigger] chain.first().advances(context, arguments, r1, next.first()) && (r1 matches TransitionResult::Error(e) ==> result == TransitionResult::<Arc<N>, Arc<E>>::Error(e)),
{
    let r1 = choose|r1: Shared<M, E>|
        #[trigger] chain.first.advances(context, arguments, r1, next.first) && result == match r1 {
            TransitionResult::Error(e) => TransitionResult::<Arc<N>, Arc<E>>::Error(e),
            _ => TransitionResult::NoTransition,
        };
    assert(chain.first().advances(context, arguments, r1, next.first()));
}

} // verus!
