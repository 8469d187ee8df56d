//! A computation whose result is known from the start.

use crate::future::{reused_error, Future, IntoFuture, Tail};
use crate::poll::{PollError, PollResult};
use crate::task::{Tokens, Waker};
use crate::util::reused;
use vstd::prelude::*;

verus! {

/// A computation that hands out a given result at its first poll.
pub struct Done<T, E> {
    inner: Option<Result<T, E>>,
}

/// The computation that finishes with `result` as soon as it is polled.
pub fn done<T, E>(result: Result<T, E>) -> (d: Done<T, E>)
    ensures
        d.pending() == Some(result),
        d.wf(),
        !d.finished(),
{
    Done { inner: Some(result) }
}

/// A plain result as the final result of a computation: a failure becomes an
/// ordinary error.
pub open spec fn lifted<T, E>(result: Result<T, E>) -> PollResult<T, E> {
    match result {
        Ok(v) => Ok(v),
        Err(e) => Err(PollError::Other(e)),
    }
}

impl<T, E> Done<T, E> {
    /// The result that waits to be handed out, if it was not handed out yet.
    pub closed spec fn pending(&self) -> Option<Result<T, E>> {
        self.inner
    }
}

impl<T, E> Future<T, E> for Done<T, E> {
    open spec fn wf(&self) -> bool {
        true
    }

    open spec fn finished(&self) -> bool {
        self.pending() is None
    }

    /// The one report there can be: the result, or a reuse once it is gone.
    open spec fn admits(&self, r: Option<PollResult<T, E>>) -> bool {
        r == match self.pending() {
            Some(result) => Some(lifted(result)),
            None => Some(Err::<T, PollError<E>>(reused_error())),
        }
    }

    /// A poll reports the one thing there is to report and leaves nothing
    /// behind.
    open spec fn steps_to(&self, tokens: Tokens, r: Option<PollResult<T, E>>, next: &Self) -> bool {
        self.admits(r) && next.pending() is None
    }

    /// Hands out the result, once.
    fn poll(&mut self, tokens: &Tokens) -> (r: Option<PollResult<T, E>>)
        ensures
            final(self).pending() is None,
            old(self).pending() matches Some(result) ==> r == Some(lifted(result)),
    {
        match self.inner.take() {
            Some(Ok(v)) => Some(Ok(v)),
            Some(Err(e)) => Some(Err(PollError::Other(e))),
            None => Some(Err(reused())),
        }
    }

    /// The result is there already: `wake` is notified at once.
    fn schedule(&mut self, wake: Waker)
        ensures
            final(self).pending() == old(self).pending(),
    {
        crate::util::done(wake)
    }

    fn tailcall(&mut self) -> (r: Option<Box<dyn Tail<T, E>>>)
        ensures
            r is None,
            final(self).pending() == old(self).pending(),
    {
        None
    }
}

impl<T, E> IntoFuture<T, E> for Done<T, E> {
    type Future = Done<T, E>;

    open spec fn convertible(&self) -> bool {
        true
    }

    fn into_future(self) -> (r: Done<T, E>)
        ensures
            r == self,
    {
        self
    }
}

impl<T, E> IntoFuture<T, E> for Result<T, E> {
    type Future = Done<T, E>;

    open spec fn convertible(&self) -> bool {
        true
    }

    fn into_future(self) -> (r: Done<T, E>)
        ensures
            r.pending() == Some(self),
    {
        done(self)
    }
}

} // verus!
