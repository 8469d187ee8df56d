//! The computation contract: poll once per wake, report readiness through the
//! wake handle, and offer a flattened replacement when one exists.

use crate::poll::{Panic, PollError, PollResult};
use crate::task::{Tokens, Waker};
use vstd::prelude::*;

verus! {

/// The error that a computation reports when it is polled after it has handed
/// out its result.
pub open spec fn reused_error<E>() -> PollError<E> {
    PollError::Panicked(Panic::Reused)
}

/// The wake handles that a computation keeps after it was scheduled with `wake`,
/// when it kept `before` until then: one more where it listens, the same where
/// it does not.
pub open spec fn after_schedule(listens: bool, before: Seq<Waker>, wake: Waker) -> Seq<Waker> {
    if listens {
        before.push(wake)
    } else {
        before
    }
}

/// A computation whose concrete type has been erased.
///
/// It can be polled and scheduled like any other computation, and obeys the same
/// protocol, but it offers no further replacement of itself.
pub trait Tail<T, E> {
    /// The state is a valid one.
    open spec fn tail_wf(&self) -> bool {
        true
    }

    /// The result has been handed out.
    open spec fn tail_finished(&self) -> bool {
        false
    }

    /// `r` is something that a poll in this state may report.
    open spec fn tail_admits(&self, r: Option<PollResult<T, E>>) -> bool {
        true
    }

    /// `run` is a sequence of polls, each with its tokens and its report, that
    /// the computation may go through from this state on.
    open spec fn tail_runs(&self, run: Seq<(Tokens, Option<PollResult<T, E>>)>) -> bool {
        true
    }

    /// See [`Future::listens`].
    open spec fn tail_listens(&self) -> bool {
        false
    }

    /// See [`Future::scheduled`].
    open spec fn tail_scheduled(&self) -> Seq<Waker> {
        Seq::empty()
    }

    /// Advances the computation. See [`Future::poll`].
    fn poll_tail(&mut self, tokens: &Tokens) -> (r: Option<PollResult<T, E>>)
        requires
            old(self).tail_wf(),
        ensures
            final(self).tail_wf(),
            old(self).tail_admits(r),
            old(self).tail_runs(seq![(*tokens, r)]),
            forall|run: Seq<(Tokens, Option<PollResult<T, E>>)>| #[trigger]
                final(self).tail_runs(run) ==> old(self).tail_runs(seq![(*tokens, r)] + run),
            old(self).tail_finished() ==> r == Some(Err::<T, PollError<E>>(reused_error())),
            final(self).tail_finished() <==> r is Some,
    ;

    /// Registers interest in being polled again. See [`Future::schedule`].
    fn schedule_tail(&mut self, wake: Waker)
        requires
            old(self).tail_wf(),
        ensures
            final(self).tail_wf(),
            final(self).tail_finished() == old(self).tail_finished(),
            final(self).tail_listens() == old(self).tail_listens(),
            final(self).tail_scheduled() == after_schedule(
                old(self).tail_listens(),
                old(self).tail_scheduled(),
                wake,
            ),
            forall|x: Option<PollResult<T, E>>| #[trigger]
                final(self).tail_admits(x) ==> old(self).tail_admits(x),
            forall|run: Seq<(Tokens, Option<PollResult<T, E>>)>| #[trigger]
                final(self).tail_runs(run) ==> old(self).tail_runs(run),
    ;
}

/// A deferred computation: work whose result becomes available over time.
///
/// The spec functions say what a state means, and an implementation in verified
/// code defines them for itself. The defaults are there for implementations in
/// ordinary code, of which nothing is proved. They are no model of a computation:
/// one that kept them could not be shown ever to finish.
pub trait Future<T, E> {
    /// The state is a valid one. Constructors establish it and every method
    /// keeps it.
    open spec fn wf(&self) -> bool {
        true
    }

    /// The result has been handed out: a poll in this state is a reuse.
    open spec fn finished(&self) -> bool {
        false
    }

    /// `r` is something that a poll in this state may report.
    ///
    /// A computation whose progress depends on the outside world admits more
    /// than one report; a combinator admits what follows from the reports that
    /// its parts admit.
    open spec fn admits(&self, r: Option<PollResult<T, E>>) -> bool {
        true
    }

    /// `next` is a state in which a poll with `tokens` may leave the computation
    /// when it reports `r` from this state. What is known of a later poll is
    /// known through this relation.
    open spec fn steps_to(&self, tokens: Tokens, r: Option<PollResult<T, E>>, next: &Self) -> bool {
        true
    }

    /// The computation has a flattened computation to offer in its place.
    open spec fn replaceable(&self) -> bool {
        false
    }

    /// The computation keeps the wake handles that it is scheduled with, to
    /// notify them when it can make progress. One that does not listen has
    /// nothing to wait for, or passes the handles on to its parts.
    open spec fn listens(&self) -> bool {
        false
    }

    /// The wake handles that the computation keeps, in the order in which it
    /// was scheduled with them.
    open spec fn scheduled(&self) -> Seq<Waker> {
        Seq::empty()
    }

    /// Advances the computation. `None` means "not yet"; `Some` carries the final
    /// result, which is handed out exactly once. A poll after that reports a
    /// reuse, never `None` and never a second value.
    fn poll(&mut self, tokens: &Tokens) -> (r: Option<PollResult<T, E>>)
        requires
            old(self).wf(),
        ensures
            final(self).wf(),
            old(self).admits(r),
            old(self).steps_to(*tokens, r, final(self)),
            old(self).finished() ==> r == Some(Err::<T, PollError<E>>(reused_error())),
            final(self).finished() <==> r is Some,
    ;

    /// Registers `wake` with every computation this one currently waits for.
    /// A computation that listens keeps `wake` behind the handles it kept
    /// before. Scheduling never produces or consumes a result, and changes
    /// nothing of how the computation goes on: it admits no report that was not
    /// admitted before, and every step that it may take now it might have taken
    /// unscheduled.
    fn schedule(&mut self, wake: Waker)
        requires
            old(self).wf(),
        ensures
            final(self).wf(),
            final(self).finished() == old(self).finished(),
            final(self).listens() == old(self).listens(),
            final(self).scheduled() == after_schedule(
                old(self).listens(),
                old(self).scheduled(),
                wake,
            ),
            forall|x: Option<PollResult<T, E>>| #[trigger]
                final(self).admits(x) ==> old(self).admits(x),
            forall|tokens: Tokens, r: Option<PollResult<T, E>>, next: &Self| #[trigger]
                final(self).steps_to(tokens, r, next) ==> old(self).steps_to(tokens, r, next),
    ;

    /// Offers an erased computation to stand in for this one from now on.
    ///
    /// With `None` this computation goes on as before. With `Some`, the returned
    /// computation takes over where this one stood, and this one must not be
    /// used for anything but being dropped.
    fn tailcall(&mut self) -> (r: Option<Box<dyn Tail<T, E>>>)
        requires
            old(self).wf(),
        ensures
            final(self).wf(),
            r is Some <==> old(self).replaceable(),
            r is None ==> {
                &&& final(self).finished() == old(self).finished()
                &&& final(self).listens() == old(self).listens()
                &&& final(self).scheduled() == old(self).scheduled()
            },
            r matches Some(t) ==> {
                &&& t.tail_wf()
                &&& t.tail_finished() == old(self).finished()
                &&& t.tail_listens() == old(self).listens()
                &&& t.tail_scheduled() == old(self).scheduled()
                &&& forall|x: Option<PollResult<T, E>>| #[trigger]
                    t.tail_admits(x) ==> old(self).admits(x)
            },
            r is None ==> forall|x: Option<PollResult<T, E>>| #[trigger]
                final(self).admits(x) ==> old(self).admits(x),
    ;
}

/// `run` is a sequence of polls that the computation `s` may go through: each
/// poll leaves it in a state from which the rest of the run may go on.
pub open spec fn runs_from<T, E, F: Future<T, E>>(
    s: F,
    run: Seq<(Tokens, Option<PollResult<T, E>>)>,
) -> bool
    decreases run.len(),
{
    run.len() == 0 || exists|next: F| #[trigger]
        s.steps_to(run[0].0, run[0].1, &next) && runs_from(next, run.drop_first())
}

impl<T, E, F: Future<T, E>> Tail<T, E> for F {
    open spec fn tail_wf(&self) -> bool {
        self.wf()
    }

    open spec fn tail_finished(&self) -> bool {
        self.finished()
    }

    open spec fn tail_admits(&self, r: Option<PollResult<T, E>>) -> bool {
        self.admits(r)
    }

    open spec fn tail_runs(&self, run: Seq<(Tokens, Option<PollResult<T, E>>)>) -> bool {
        runs_from(*self, run)
    }

    open spec fn tail_listens(&self) -> bool {
        self.listens()
    }

    open spec fn tail_scheduled(&self) -> Seq<Waker> {
        self.scheduled()
    }

    fn poll_tail(&mut self, tokens: &Tokens) -> (r: Option<PollResult<T, E>>) {
        let r = self.poll(tokens);
        proof {
            let step = seq![(*tokens, r)];
            assert(runs_from(*old(self), step)) by {
                assert(old(self).steps_to(step[0].0, step[0].1, self));
                assert(runs_from(*self, step.drop_first()));
            }
            assert forall|run: Seq<(Tokens, Option<PollResult<T, E>>)>| #[trigger]
                runs_from(*self, run) implies runs_from(*old(self), step + run) by {
                let whole = step + run;
                assert(whole.drop_first() =~= run);
                assert(old(self).steps_to(whole[0].0, whole[0].1, self));
            }
        }
        r
    }

    fn schedule_tail(&mut self, wake: Waker) {
        self.schedule(wake);
        proof {
            assert forall|run: Seq<(Tokens, Option<PollResult<T, E>>)>| #[trigger]
                runs_from(*self, run) implies runs_from(*old(self), run) by {
                if run.len() > 0 {
                    let next = choose|next: F| #[trigger]
                        self.steps_to(run[0].0, run[0].1, &next) && runs_from(
                            next,
                            run.drop_first(),
                        );
                    assert(old(self).steps_to(run[0].0, run[0].1, &next));
                }
            }
        }
    }
}

/// A value that can be turned into a deferred computation.
pub trait IntoFuture<T, E> {
    /// The computation that the value becomes.
    type Future: Future<T, E>;

    /// The value can be converted.
    open spec fn convertible(&self) -> bool {
        true
    }

    /// Turns the value into a computation.
    fn into_future(self) -> (r: Self::Future)
        requires
            self.convertible(),
        ensures
            r.wf(),
    ;
}

} // verus!
