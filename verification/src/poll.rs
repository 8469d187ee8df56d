//! What a poll can report.

use vstd::prelude::*;

verus! {

/// Why a computation failed outside its own domain of errors.
#[derive(Debug, Clone, PartialEq, Eq)]
pub enum Panic {
    /// The computation was polled again after it had handed out its result.
    Reused,
    /// A callback supplied by the caller unwound; the string is its message.
    Unwound(String),
}

/// The failure of a deferred computation.
#[derive(Debug, Clone, PartialEq, Eq)]
pub enum PollError<E> {
    /// A failure that the computation declares.
    Other(E),
    /// A failure of the machinery itself. No combinator maps it to anything else.
    Panicked(Panic),
}

/// The final result of a deferred computation.
pub type PollResult<T, E> = Result<T, PollError<E>>;

/// What a contained callback gave: its value, or the message it unwound with.
pub type Caught<R> = Result<R, String>;

} // verus!
