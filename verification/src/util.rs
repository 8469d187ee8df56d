//! Helpers shared by the combinators: the reuse error, contained callbacks, and
//! the collapsed wrapper that keeps chains of combinators flat.

use crate::future::{after_schedule, reused_error, Future, Tail};
use crate::poll::{Caught, Panic, PollError, PollResult};
use crate::task::{Tokens, Waker};
use vstd::prelude::*;

verus! {

/// The error for a computation that was polled after it had finished.
pub fn reused<E>() -> (e: PollError<E>)
    ensures
        e == reused_error::<E>(),
{
    PollError::Panicked(Panic::Reused)
}

/// Turns a slot that is emptied on first use into a result: what it holds, or a
/// reuse error when it was emptied before.
pub fn opt2poll<T, E>(t: Option<T>) -> (r: PollResult<T, E>)
    ensures
        r == match t {
            Some(v) => Ok::<T, PollError<E>>(v),
            None => Err(reused_error()),
        },
{
    match t {
        Some(v) => Ok(v),
        None => Err(reused()),
    }
}

/// `r` is what [`recover`] may return for the callback `f` applied to `x`.
pub open spec fn recovered<X, R, E, F: FnOnce(X) -> Caught<R>>(
    f: F,
    x: X,
    r: PollResult<R, E>,
) -> bool {
    match r {
        Ok(v) => call_ensures(f, (x,), Ok::<R, String>(v)),
        Err(PollError::Panicked(Panic::Unwound(message))) => call_ensures(
            f,
            (x,),
            Err::<R, String>(message),
        ),
        _ => false,
    }
}

/// Runs a callback of the caller and isolates its failure: a callback that
/// unwound gives a panic error, never an ordinary one.
pub fn recover<X, R, E, F: FnOnce(X) -> Caught<R>>(f: F, x: X) -> (r: PollResult<R, E>)
    requires
        call_requires(f, (x,)),
    ensures
        recovered(f, x, r),
{
    match f(x) {
        Ok(v) => Ok(v),
        Err(message) => Err(PollError::Panicked(Panic::Unwound(message))),
    }
}

/// Notifies `wake` at once, for a computation whose result is already decided
/// and only waits to be polled.
pub fn done(wake: Waker) {
    let tokens = Tokens::all();
    wake.wake(&tokens);
}

/// Either the computation it was made with, or the erased computation that has
/// replaced it. Once replaced it is never expanded again.
#[verifier::reject_recursive_types(T)]
#[verifier::reject_recursive_types(E)]
pub enum Collapsed<T, E, A> {
    /// The computation as it was given.
    Start(A),
    /// The flattened computation that took its place.
    Tail(Box<dyn Tail<T, E>>),
}

impl<T, E, A: Future<T, E>> Collapsed<T, E, A> {
    /// The computation held is in a valid state.
    pub open spec fn wf(&self) -> bool {
        match self {
            Collapsed::Start(a) => a.wf(),
            Collapsed::Tail(a) => a.tail_wf(),
        }
    }

    /// The computation held has handed out its result.
    pub open spec fn finished(&self) -> bool {
        match self {
            Collapsed::Start(a) => a.finished(),
            Collapsed::Tail(a) => a.tail_finished(),
        }
    }

    /// `r` is something that a poll of the computation held may report.
    pub open spec fn admits(&self, r: Option<PollResult<T, E>>) -> bool {
        match self {
            Collapsed::Start(a) => a.admits(r),
            Collapsed::Tail(a) => a.tail_admits(r),
        }
    }

    /// The computation held listens.
    pub open spec fn listens(&self) -> bool {
        match self {
            Collapsed::Start(a) => a.listens(),
            Collapsed::Tail(a) => a.tail_listens(),
        }
    }

    /// The wake handles that the computation held keeps.
    pub open spec fn scheduled(&self) -> Seq<Waker> {
        match self {
            Collapsed::Start(a) => a.scheduled(),
            Collapsed::Tail(a) => a.tail_scheduled(),
        }
    }

    /// `after` is what collapsing makes of this wrapper: the replacement, where
    /// the computation it was made with offers one, and the same wrapper where
    /// it holds a replacement already. Whichever it is, it stands where this
    /// one stood.
    pub open spec fn collapses_to(&self, after: Self) -> bool {
        &&& after is Tail <==> *self is Tail || self->Start_0.replaceable()
        &&& *self is Tail ==> after == *self
        &&& after.finished() == self.finished()
        &&& after.listens() == self.listens()
        &&& after.scheduled() == self.scheduled()
        &&& forall|x: Option<PollResult<T, E>>| #[trigger] after.admits(x) ==> self.admits(x)
    }

    /// `next` is a wrapper that a poll with `tokens` may leave behind when it
    /// reports `r`: the computation it was made with after that poll, or a
    /// replacement that goes on only as the one held could after that poll.
    pub open spec fn steps_to(
        &self,
        tokens: Tokens,
        r: Option<PollResult<T, E>>,
        next: Self,
    ) -> bool {
        match (*self, next) {
            (Collapsed::Start(a), Collapsed::Start(b)) => a.steps_to(tokens, r, &b),
            (Collapsed::Tail(a), Collapsed::Tail(b)) => {
                &&& a.tail_runs(seq![(tokens, r)])
                &&& forall|run: Seq<(Tokens, Option<PollResult<T, E>>)>| #[trigger]
                    b.tail_runs(run) ==> a.tail_runs(seq![(tokens, r)] + run)
            },
            _ => false,
        }
    }

    /// Polls whichever computation is current. Polling never collapses.
    pub fn poll(&mut self, tokens: &Tokens) -> (r: Option<PollResult<T, E>>)
        requires
            old(self).wf(),
        ensures
            final(self).wf(),
            old(self).admits(r),
            old(self).steps_to(*tokens, r, *final(self)),
            old(self).finished() ==> r == Some(Err::<T, PollError<E>>(reused_error())),
            final(self).finished() <==> r is Some,
            *final(self) is Tail <==> *old(self) is Tail,
    {
        match self {
            Collapsed::Start(a) => a.poll(tokens),
            Collapsed::Tail(a) => a.poll_tail(tokens),
        }
    }

    /// Schedules whichever computation is current.
    pub fn schedule(&mut self, wake: Waker)
        requires
            old(self).wf(),
        ensures
            final(self).wf(),
            final(self).finished() == old(self).finished(),
            *final(self) is Tail <==> *old(self) is Tail,
            final(self).listens() == old(self).listens(),
            final(self).scheduled() == after_schedule(
                old(self).listens(),
                old(self).scheduled(),
                wake,
            ),
            forall|x: Option<PollResult<T, E>>| #[trigger]
                final(self).admits(x) ==> old(self).admits(x),
            forall|tokens: Tokens, r: Option<PollResult<T, E>>, next: Self| #[trigger]
                final(self).steps_to(tokens, r, next) ==> old(self).steps_to(tokens, r, next),
    {
        match self {
            Collapsed::Start(a) => a.schedule(wake),
            Collapsed::Tail(a) => a.schedule_tail(wake),
        }
    }

    /// Asks the computation it was made with for a flattened replacement and, if it
    /// offers one, holds that from now on. A wrapper that already holds a
    /// replacement stays as it is.
    pub fn collapse(&mut self)
        requires
            old(self).wf(),
        ensures
            final(self).wf(),
            old(self).collapses_to(*final(self)),
    {
        let tail = match self {
            Collapsed::Start(a) => a.tailcall(),
            Collapsed::Tail(_) => None,
        };
        match tail {
            Some(t) => {
                *self = Collapsed::Tail(t);
            },
            None => {},
        }
    }
}

} // verus!
