//! The two-phase state machine under the sequential combinators.

use crate::future::{after_schedule, reused_error, Future, Tail};
use crate::poll::{PollError, PollResult};
use crate::task::{Tokens, Waker};
use crate::util::{reused, Collapsed};
use vstd::prelude::*;

verus! {

/// A computation in two phases: a first computation with the data that decides
/// what follows it, then the computation that follows, then nothing.
#[verifier::reject_recursive_types(T)]
#[verifier::reject_recursive_types(U)]
#[verifier::reject_recursive_types(E)]
pub enum Chain<T, U, E, A, B, C> {
    /// The first computation runs; the data waits.
    First(Collapsed<T, E, A>, C),
    /// The second computation runs.
    Second(Collapsed<U, E, B>),
    /// The chain was decided without a second computation.
    Done,
}

impl<T, U, E, A: Future<T, E>, B: Future<U, E>, C> Chain<T, U, E, A, B, C> {
    /// The chain that [`Chain::new`] makes.
    pub open spec fn new_spec(a: A, c: C) -> Self {
        Chain::First(Collapsed::Start(a), c)
    }

    /// A chain in its first phase.
    pub fn new(a: A, c: C) -> (chain: Self)
        requires
            a.wf(),
        ensures
            chain == Self::new_spec(a, c),
            chain.wf(),
    {
        Chain::First(Collapsed::Start(a), c)
    }

    /// The computation of the current phase is valid.
    pub open spec fn wf(&self) -> bool {
        match self {
            Chain::First(a, _) => a.wf(),
            Chain::Second(b) => b.wf(),
            Chain::Done => true,
        }
    }

    /// The computation of the current phase has finished, or there is none.
    pub open spec fn finished(&self) -> bool {
        match self {
            Chain::First(a, _) => a.finished(),
            Chain::Second(b) => b.finished(),
            Chain::Done => true,
        }
    }

    /// The computation of the current phase listens.
    pub open spec fn listens(&self) -> bool {
        match self {
            Chain::First(a, _) => a.listens(),
            Chain::Second(b) => b.listens(),
            Chain::Done => false,
        }
    }

    /// The wake handles that the computation of the current phase keeps.
    pub open spec fn scheduled(&self) -> Seq<Waker> {
        match self {
            Chain::First(a, _) => a.scheduled(),
            Chain::Second(b) => b.scheduled(),
            Chain::Done => Seq::empty(),
        }
    }

    /// `r` and `next` are what a poll may give when the first phase has finished
    /// with a result that `f` turned into `out`. A value or an error ends the
    /// chain. A second computation is polled at once, with every token, and the
    /// chain holds it from then on as that poll left it.
    pub open spec fn decided(
        out: PollResult<Result<U, B>, E>,
        r: Option<PollResult<U, E>>,
        next: Self,
    ) -> bool {
        match out {
            Ok(Ok(v)) => r == Some(Ok::<U, PollError<E>>(v)) && next is Done,
            Ok(Err(b)) => b.admits(r) && exists|all: Tokens, polled: B| #[trigger]
                b.steps_to(all, r, &polled) && all.is_all() && next == Chain::<
                    T,
                    U,
                    E,
                    A,
                    B,
                    C,
                >::Second(Collapsed::Start(polled)),
            Err(e) => r == Some(Err::<U, PollError<E>>(e)) && next is Done,
        }
    }

    /// Advances the chain.
    ///
    /// In the first phase the first computation is polled. Once it has finished,
    /// `f` decides from its result and the data: a value or an error ends the
    /// chain, a second computation is polled at once, with every token, and
    /// runs from then on. In the second phase the second computation is polled.
    /// A chain that has ended reports a reuse.
    ///
    /// `f` has to accept every result of the first computation, to give second
    /// computations in a valid state only, and to pass a reuse on as it is.
    pub fn poll<F>(&mut self, tokens: &Tokens, f: F) -> (r: Option<PollResult<U, E>>)
        where
            F: FnOnce(PollResult<T, E>, C) -> PollResult<Result<U, B>, E>,
        requires
            old(self).wf(),
            *old(self) matches Chain::First(_, c) ==> forall|ar: PollResult<T, E>|
                call_requires(f, (ar, c)),
            forall|ar: PollResult<T, E>, c: C, out: PollResult<Result<U, B>, E>|
                #[trigger] call_ensures(f, (ar, c), out) ==> {
                    &&& out matches Ok(Err(b)) ==> b.wf()
                    &&& ar == Err::<T, PollError<E>>(reused_error()) ==> out == Err::<
                        Result<U, B>,
                        PollError<E>,
                    >(reused_error())
                },
        ensures
            final(self).wf(),
            old(self).finished() ==> r == Some(Err::<U, PollError<E>>(reused_error())),
            final(self).finished() <==> r is Some,
            match *old(self) {
                Chain::First(a, c) => {
                    ||| (r is None && a.admits(None) && *final(self) is First
                        && final(self)->First_1 == c && a.steps_to(
                        *tokens,
                        None,
                        final(self)->First_0,
                    ))
                    ||| exists|
                        ar: PollResult<T, E>,
                        out: PollResult<Result<U, B>, E>,
                        polled: Collapsed<T, E, A>,
                    |
                        a.admits(Some(ar)) && #[trigger] a.steps_to(*tokens, Some(ar), polled)
                            && #[trigger] call_ensures(f, (ar, c), out) && Self::decided(
                            out,
                            r,
                            *final(self),
                        )
                },
                Chain::Second(b) => b.admits(r) && *final(self) is Second && b.steps_to(
                    *tokens,
                    r,
                    final(self)->Second_0,
                ),
                Chain::Done => *final(self) is Done,
            },
    {
        let a_result = match self {
            Chain::First(a, _) => match a.poll(tokens) {
                Some(a_result) => a_result,
                None => {
                    return None;
                },
            },
            Chain::Second(b) => {
                return b.poll(tokens);
            },
            Chain::Done => {
                return Some(Err(reused()));
            },
        };
        let ghost polled = self->First_0;
        let mut taken = Chain::Done;
        std::mem::swap(self, &mut taken);
        let data = match taken {
            Chain::First(_, c) => c,
            _ => vstd::pervasive::unreached(),
        };
        let out = f(a_result, data);
        assert(old(self)->First_0.admits(Some(a_result)));
        assert(old(self)->First_0.steps_to(*tokens, Some(a_result), polled));
        match out {
            Ok(Ok(v)) => Some(Ok(v)),
            Ok(Err(mut b)) => {
                let all = Tokens::all();
                let ghost made = b;
                let ret = b.poll(&all);
                *self = Chain::Second(Collapsed::Start(b));
                proof {
                    assert(made.steps_to(all, ret, &b) && all.is_all());
                    assert(Self::decided(out, ret, *self));
                }
                ret
            },
            Err(e) => Some(Err(e)),
        }
    }

    /// Schedules the computation of the current phase. A chain that has ended
    /// has its result decided, so `wake` is notified at once.
    pub fn schedule(&mut self, wake: Waker)
        requires
            old(self).wf(),
        ensures
            final(self).wf(),
            final(self).finished() == old(self).finished(),
            *old(self) is First <==> *final(self) is First,
            *old(self) is Second <==> *final(self) is Second,
            *old(self) is Done ==> *final(self) is Done,
            *old(self) matches Chain::First(_, c) ==> final(self)->First_1 == c,
            final(self).listens() == old(self).listens(),
            final(self).scheduled() == after_schedule(
                old(self).listens(),
                old(self).scheduled(),
                wake,
            ),
            *old(self) matches Chain::First(a, _) ==> forall|x: Option<PollResult<T, E>>|
                #[trigger] final(self)->First_0.admits(x) ==> a.admits(x),
            *old(self) matches Chain::Second(b) ==> forall|x: Option<PollResult<U, E>>|
                #[trigger] final(self)->Second_0.admits(x) ==> b.admits(x),
            *old(self) matches Chain::First(a, _) ==> forall|
                tokens: Tokens,
                x: Option<PollResult<T, E>>,
                next: Collapsed<T, E, A>,
            | #[trigger]
                final(self)->First_0.steps_to(tokens, x, next) ==> a.steps_to(tokens, x, next),
            *old(self) matches Chain::Second(b) ==> forall|
                tokens: Tokens,
                x: Option<PollResult<U, E>>,
                next: Collapsed<U, E, B>,
            | #[trigger]
                final(self)->Second_0.steps_to(tokens, x, next) ==> b.steps_to(tokens, x, next),
    {
        match self {
            Chain::First(a, _) => a.schedule(wake),
            Chain::Second(b) => b.schedule(wake),
            Chain::Done => crate::util::done(wake),
        }
    }

    /// Offers the second computation in place of the chain.
    ///
    /// A chain in its second phase does nothing but run that computation, so it
    /// hands it over, erased, and ends. In the first phase the first
    /// computation is invited to collapse and the chain stays.
    pub fn tailcall(&mut self) -> (r: Option<Box<dyn Tail<U, E>>>)
        where
            B: 'static,
        requires
            old(self).wf(),
        ensures
            final(self).wf(),
            r is None ==> final(self).finished() == old(self).finished(),
            r is None ==> {
                &&& final(self).listens() == old(self).listens()
                &&& final(self).scheduled() == old(self).scheduled()
            },
            r matches Some(t) ==> {
                &&& t.tail_wf()
                &&& t.tail_finished() == old(self).finished()
                &&& t.tail_listens() == old(self).listens()
                &&& t.tail_scheduled() == old(self).scheduled()
                &&& forall|x: Option<PollResult<U, E>>| #[trigger]
                    t.tail_admits(x) ==> old(self)->Second_0.admits(x)
            },
            *old(self) matches Chain::First(a, _) ==> a.collapses_to(final(self)->First_0),
            *old(self) matches Chain::First(a, _) ==> forall|x: Option<PollResult<T, E>>|
                #[trigger] final(self)->First_0.admits(x) ==> a.admits(x),
            r is Some <==> *old(self) is Second,
            !(*old(self) is First) ==> *final(self) is Done,
            *old(self) is First <==> *final(self) is First,
            *old(self) matches Chain::First(_, c) ==> final(self)->First_1 == c,
    {
        match self {
            Chain::First(a, _) => {
                a.collapse();
                return None;
            },
            Chain::Second(_) => {},
            Chain::Done => {
                return None;
            },
        }
        let mut taken = Chain::Done;
        std::mem::swap(self, &mut taken);
        match taken {
            Chain::Second(Collapsed::Start(b)) => {
                let tail: Box<dyn Tail<U, E>> = Box::new(b);
                Some(tail)
            },
            Chain::Second(Collapsed::Tail(tail)) => Some(tail),
            _ => vstd::pervasive::unreached(),
        }
    }
}

} // verus!
