//! The projection of a sequence of successes and failures onto a plain sequence
//! of results.

use crate::stream::{FusedStream, Poll, Stream, TryStream};
use crate::task::Context;
use vstd::prelude::*;

verus! {

/// Stream for the `into_stream` method: the wrapped sequence, item for item.
#[derive(Debug)]
#[must_use]
pub struct IntoStream<St> {
    stream: St,
}

impl<St> View for IntoStream<St> {
    type V = St;

    /// The wrapped sequence.
    closed spec fn view(&self) -> St {
        self.stream
    }
}

impl<St> IntoStream<St> {
    /// Wraps `stream`.
    pub fn new(stream: St) -> (s: Self)
        ensures
            s@ == stream,
    {
        IntoStream { stream }
    }

    /// Acquires a reference to the underlying stream that this combinator is
    /// pulling from.
    pub fn get_ref(&self) -> (inner: &St)
        ensures
            *inner == self@,
    {
        &self.stream
    }

    /// Acquires a mutable reference to the underlying stream that this
    /// combinator is pulling from. What the caller leaves there is what the
    /// combinator wraps afterwards.
    pub fn get_mut(&mut self) -> (inner: &mut St)
        ensures
            *inner == old(self)@,
            final(self)@ == *final(inner),
    {
        &mut self.stream
    }

    /// Consumes this combinator, returning the underlying stream.
    pub fn into_inner(self) -> (inner: St)
        ensures
            inner == self@,
    {
        self.stream
    }
}

impl<T, E, St: TryStream<T, E>> Stream<Result<T, E>> for IntoStream<St> {
    open spec fn stream_wf(&self) -> bool {
        self@.stream_wf()
    }

    open spec fn yielded(&self) -> Seq<Result<T, E>> {
        self@.yielded()
    }

    /// The projection goes where the wrapped sequence goes.
    open spec fn next_to(&self, r: Poll<Option<Result<T, E>>>, next: &Self) -> bool {
        self@.next_to(r, &next@)
    }

    /// Polls the wrapped sequence and reports what it reported.
    fn poll_next(&mut self, cx: &Context) -> (r: Poll<Option<Result<T, E>>>) {
        self.stream.try_poll_next(cx)
    }
}

impl<T, E, St> FusedStream<Result<T, E>> for IntoStream<St>
    where
        St: TryStream<T, E> + FusedStream<Result<T, E>>,
 {
    open spec fn terminated(&self) -> bool {
        self@.terminated()
    }

    /// Passes on what the wrapped sequence says.
    fn is_terminated(&self) -> (b: bool) {
        self.stream.is_terminated()
    }
}

} // verus!
