//! The sequence contract: a computation that gives zero or more items, one per
//! poll, before it signals that there are no more.

use crate::task::Context;
use vstd::prelude::*;

verus! {

/// What one poll of a sequence reports: a value, or "not yet".
#[derive(Debug, Clone, Copy, PartialEq, Eq, Structural)]
pub enum Poll<T> {
    /// The value is there.
    Ready(T),
    /// Nothing yet. The wake handle of the context is notified when polling
    /// again can make progress.
    Pending,
}

/// The items that a sequence has given after a poll that reported `r`, when it
/// had given `before` until then: one more for an item, the same otherwise.
pub open spec fn after_poll<T>(before: Seq<T>, r: Poll<Option<T>>) -> Seq<T> {
    match r {
        Poll::Ready(Some(item)) => before.push(item),
        _ => before,
    }
}

/// A deferred sequence.
///
/// The spec functions say what a state means, and an implementation in verified
/// code defines them for itself. The defaults are there for implementations in
/// ordinary code, of which nothing is proved. They are no model of a sequence:
/// one that kept them could not be shown ever to give an item.
pub trait Stream<T> {
    /// The state is a valid one.
    open spec fn stream_wf(&self) -> bool {
        true
    }

    /// The items given so far, in the order in which they were given.
    open spec fn yielded(&self) -> Seq<T> {
        Seq::empty()
    }

    /// `next` is a state in which a poll may leave the sequence when it reports
    /// `r` from this state. What is known of a later poll is known through this
    /// relation. An adapter goes where the sequence behind it goes.
    open spec fn next_to(&self, r: Poll<Option<T>>, next: &Self) -> bool {
        true
    }

    /// Attempts to pull out the next item. `Ready(Some(item))` is the next item,
    /// `Ready(None)` says that there are no more, `Pending` that the next one is
    /// not there yet. Every item reported is recorded, and nothing else is.
    fn poll_next(&mut self, cx: &Context) -> (r: Poll<Option<T>>)
        requires
            old(self).stream_wf(),
        ensures
            final(self).stream_wf(),
            old(self).next_to(r, final(self)),
            final(self).yielded() == after_poll(old(self).yielded(), r),
    ;
}

/// `run` is a sequence of reports that polls of the sequence `s` may give, one
/// after the other: each poll leaves it in a state from which the rest of the
/// run may go on.
pub open spec fn stream_runs<T, S: Stream<T>>(s: S, run: Seq<Poll<Option<T>>>) -> bool
    decreases run.len(),
{
    run.len() == 0 || exists|next: S| #[trigger]
        s.next_to(run[0], &next) && stream_runs(next, run.drop_first())
}

/// A sequence that can tell whether it should still be polled.
pub trait FusedStream<T>: Stream<T> {
    /// The sequence has ended.
    open spec fn terminated(&self) -> bool {
        false
    }

    /// Whether the sequence has ended and should no longer be polled.
    fn is_terminated(&self) -> (b: bool)
        ensures
            b == self.terminated(),
    ;
}

/// A sequence whose items are successes or failures.
pub trait TryStream<T, E>: Stream<Result<T, E>> {
    /// Polls the sequence as a plain sequence of results.
    fn try_poll_next(&mut self, cx: &Context) -> (r: Poll<Option<Result<T, E>>>)
        requires
            old(self).stream_wf(),
        ensures
            final(self).stream_wf(),
            old(self).next_to(r, final(self)),
            final(self).yielded() == after_poll(old(self).yielded(), r),
    ;
}

impl<T, E, S: Stream<Result<T, E>>> TryStream<T, E> for S {
    fn try_poll_next(&mut self, cx: &Context) -> (r: Poll<Option<Result<T, E>>>) {
        self.poll_next(cx)
    }
}

} // verus!
