//! The `map_err` combinator: a computation whose ordinary errors are mapped by a
//! callback of the caller.

use crate::future::{reused_error, Future, Tail};
use crate::poll::{Caught, Panic, PollError, PollResult};
use crate::task::{Tokens, Waker};
use crate::util::{opt2poll, recover, Collapsed};
use vstd::prelude::*;

verus! {

/// Future for the `map_err` combinator, changing the error type of a
/// computation.
///
/// The callback is used at most once: it is taken out of its slot by the poll
/// that sees the final result.
#[verifier::reject_recursive_types(T)]
#[verifier::reject_recursive_types(E)]
pub struct MapErr<T, E, A, F> {
    future: Collapsed<T, E, A>,
    f: Option<F>,
}

/// Wraps `future` so that its ordinary errors go through `f`.
pub fn new<T, E, U, A, F>(future: A, f: F) -> (m: MapErr<T, E, A, F>)
    where
        A: Future<T, E>,
        F: FnOnce(E) -> Caught<U>,
    requires
        future.wf(),
        forall|e: E| call_requires(f, (e,)),
    ensures
        m.inner() == Collapsed::<T, E, A>::Start(future),
        m.callback() == Some(f),
        m.wf(),
{
    MapErr { future: Collapsed::Start(future), f: Some(f) }
}

/// `r` is a result that the combinator may report when the wrapped computation
/// has finished with `inner` and the callback slot holds `f`.
///
/// - An emptied slot means that the result was handed out before: a reuse.
/// - A success passes through.
/// - An ordinary error is what the callback makes of it, or the panic error with
///   the callback's message when the callback unwound.
/// - A panic error passes through as it is; the callback has no part in it.
pub open spec fn outcome<T, E, U, F: FnOnce(E) -> Caught<U>>(
    f: Option<F>,
    inner: PollResult<T, E>,
    r: PollResult<T, U>,
) -> bool {
    match f {
        None => r == Err::<T, PollError<U>>(reused_error()),
        Some(g) => match inner {
            Ok(v) => r == Ok::<T, PollError<U>>(v),
            Err(PollError::Other(e)) => match r {
                Err(PollError::Other(u)) => call_ensures(g, (e,), Ok::<U, String>(u)),
                Err(PollError::Panicked(Panic::Unwound(message))) => call_ensures(
                    g,
                    (e,),
                    Err::<U, String>(message),
                ),
                _ => false,
            },
            Err(PollError::Panicked(p)) => r == Err::<T, PollError<U>>(PollError::Panicked(p)),
        },
    }
}

/// Turns the final result `inner` of the wrapped computation into the result of
/// the combinator, with the callback slot `f` as the poll found it.
///
/// The callback is only ever applied to an ordinary error. Nothing is asked of
/// it for any other result, so it cannot run on a success or on a panic error.
pub fn deliver<T, E, U, F>(f: Option<F>, inner: PollResult<T, E>) -> (r: PollResult<T, U>)
    where
        F: FnOnce(E) -> Caught<U>,
    requires
        f matches Some(g) ==> (inner matches Err(PollError::Other(e)) ==> call_requires(g, (e,))),
    ensures
        outcome(f, inner, r),
        f is Some ==> (inner matches Err(PollError::Panicked(p)) ==> r == Err::<T, PollError<U>>(
            PollError::Panicked(p),
        )),
        f is Some ==> (inner matches Ok(v) ==> r == Ok::<T, PollError<U>>(v)),
{
    match opt2poll::<F, U>(f) {
        Err(e) => Err(e),
        Ok(g) => match inner {
            Ok(v) => Ok(v),
            Err(PollError::Other(e)) => match recover::<E, U, U, F>(g, e) {
                Ok(u) => Err(PollError::Other(u)),
                Err(p) => Err(p),
            },
            Err(PollError::Panicked(p)) => Err(PollError::Panicked(p)),
        },
    }
}

impl<T, E, A, F> MapErr<T, E, A, F> {
    /// The wrapped computation.
    pub closed spec fn inner(&self) -> Collapsed<T, E, A> {
        self.future
    }

    /// The callback slot: `Some` until the final result has been mapped.
    pub closed spec fn callback(&self) -> Option<F> {
        self.f
    }
}

impl<T, E, U, A, F> Future<T, U> for MapErr<T, E, A, F>
    where
        A: Future<T, E>,
        F: FnOnce(E) -> Caught<U>,
 {
    /// The wrapped computation is valid, a callback that is still there accepts
    /// every error, and the slot is only empty once the wrapped computation has
    /// finished.
    open spec fn wf(&self) -> bool {
        &&& self.inner().wf()
        &&& self.callback() matches Some(g) ==> forall|e: E| call_requires(g, (e,))
        &&& self.callback() is None ==> self.inner().finished()
    }

    /// The wrapped computation has finished.
    open spec fn finished(&self) -> bool {
        self.inner().finished()
    }

    /// The combinator listens where the wrapped computation does.
    open spec fn listens(&self) -> bool {
        self.inner().listens()
    }

    /// The wake handles that the wrapped computation keeps.
    open spec fn scheduled(&self) -> Seq<Waker> {
        self.inner().scheduled()
    }

    /// The combinator is not ready while the wrapped computation is not, and
    /// then reports an [`outcome`] of a result that the wrapped computation
    /// admits.
    open spec fn admits(&self, r: Option<PollResult<T, U>>) -> bool {
        match r {
            None => self.inner().admits(None),
            Some(x) => exists|inner: PollResult<T, E>| #[trigger]
                self.inner().admits(Some(inner)) && outcome(self.callback(), inner, x),
        }
    }

    /// A poll that is not ready leaves the wrapped computation as its own poll
    /// left it, and the callback in its slot. A poll that is ready has emptied
    /// the slot and reports an [`outcome`] of what the wrapped computation
    /// reported.
    open spec fn steps_to(&self, tokens: Tokens, r: Option<PollResult<T, U>>, next: &Self) -> bool {
        match r {
            None => {
                &&& self.inner().steps_to(tokens, None, next.inner())
                &&& next.callback() == self.callback()
            },
            Some(x) => {
                &&& next.callback() is None
                &&& exists|inner: PollResult<T, E>| #[trigger]
                    self.inner().steps_to(tokens, Some(inner), next.inner()) && outcome(
                        self.callback(),
                        inner,
                        x,
                    )
            },
        }
    }

    /// Polls the wrapped computation and, once it has finished, delivers its
    /// result through [`deliver`].
    fn poll(&mut self, tokens: &Tokens) -> (r: Option<PollResult<T, U>>)
        ensures
            r is None ==> final(self).callback() == old(self).callback(),
            r is Some ==> final(self).callback() is None,
    {
        let result = match self.future.poll(tokens) {
            Some(result) => result,
            None => {
                return None;
            },
        };
        let f = self.f.take();
        let r = deliver(f, result);
        assert(old(self).inner().admits(Some(result)) && outcome(
            old(self).callback(),
            result,
            r,
        ));
        assert(old(self).inner().steps_to(*tokens, Some(result), self.inner()));
        Some(r)
    }

    /// Schedules the wrapped computation.
    fn schedule(&mut self, wake: Waker)
        ensures
            final(self).callback() == old(self).callback(),
    {
        self.future.schedule(wake)
    }

    /// Invites the wrapped computation to collapse. The combinator itself stays.
    fn tailcall(&mut self) -> (r: Option<Box<dyn Tail<T, U>>>)
        ensures
            r is None,
            final(self).callback() == old(self).callback(),
            old(self).inner().collapses_to(final(self).inner()),
    {
        self.future.collapse();
        None
    }
}

/// A panic error of the wrapped computation is the result of the combinator as
/// it is: where the wrapped computation can only finish with the panic error
/// `p`, a combinator that still has its callback can only finish with `p`.
pub proof fn lemma_panic_is_not_mapped<T, E, U, A, F>(
    m: MapErr<T, E, A, F>,
    p: Panic,
    x: PollResult<T, U>,
)
    where
        A: Future<T, E>,
        F: FnOnce(E) -> Caught<U>,
    requires
        m.callback() is Some,
        forall|inner: PollResult<T, E>| #[trigger]
            m.inner().admits(Some(inner)) ==> inner == Err::<T, PollError<E>>(
                PollError::Panicked(p),
            ),
        m.admits(Some(x)),
    ensures
        x == Err::<T, PollError<U>>(PollError::Panicked(p)),
{
}

/// A success is the result of the combinator as it is: where the wrapped
/// computation can only finish with the value `v`, a combinator that still has
/// its callback can only finish with `v`.
pub proof fn lemma_success_passes_through<T, E, U, A, F>(
    m: MapErr<T, E, A, F>,
    v: T,
    x: PollResult<T, U>,
)
    where
        A: Future<T, E>,
        F: FnOnce(E) -> Caught<U>,
    requires
        m.callback() is Some,
        forall|inner: PollResult<T, E>| #[trigger]
            m.inner().admits(Some(inner)) ==> inner == Ok::<T, PollError<E>>(v),
        m.admits(Some(x)),
    ensures
        x == Ok::<T, PollError<U>>(v),
{
}

/// An ordinary error goes through the callback: where the wrapped computation
/// can only finish with the ordinary error `e`, the combinator finishes with an
/// ordinary error that the callback gives for `e`, or with the panic error that
/// carries the message the callback unwound with on `e`.
pub proof fn lemma_error_is_mapped<T, E, U, A, F>(
    m: MapErr<T, E, A, F>,
    e: E,
    x: PollResult<T, U>,
)
    where
        A: Future<T, E>,
        F: FnOnce(E) -> Caught<U>,
    requires
        m.callback() is Some,
        forall|inner: PollResult<T, E>| #[trigger]
            m.inner().admits(Some(inner)) ==> inner == Err::<T, PollError<E>>(
                PollError::Other(e),
            ),
        m.admits(Some(x)),
    ensures
        match x {
            Err(PollError::Other(u)) => call_ensures(
                m.callback()->Some_0,
                (e,),
                Ok::<U, String>(u),
            ),
            Err(PollError::Panicked(Panic::Unwound(message))) => call_ensures(
                m.callback()->Some_0,
                (e,),
                Err::<U, String>(message),
            ),
            _ => false,
        },
{
}

/// The combinator is not ready exactly as long as the wrapped computation is
/// not: it admits "not yet" where the wrapped computation does, and nowhere
/// else.
pub proof fn lemma_not_ready_with_the_wrapped<T, E, U, A, F>(m: MapErr<T, E, A, F>)
    where
        A: Future<T, E>,
        F: FnOnce(E) -> Caught<U>,
    ensures
        m.admits(None) <==> m.inner().admits(None),
{
}

} // verus!
