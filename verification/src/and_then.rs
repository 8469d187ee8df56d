//! The `and_then` combinator: a computation, then a second one made from its
//! success.

use crate::chain::Chain;
use crate::future::{reused_error, Future, IntoFuture, Tail};
use crate::poll::{Caught, Panic, PollError, PollResult};
use crate::task::{Tokens, Waker};
use crate::util::{recover, Collapsed};
use vstd::prelude::*;

verus! {

/// Future for the `and_then` combinator, chaining a computation onto the end of
/// another computation which completes successfully.
#[verifier::reject_recursive_types(T)]
#[verifier::reject_recursive_types(U)]
#[verifier::reject_recursive_types(E)]
#[verifier::reject_recursive_types(B)]
pub struct AndThen<T, U, E, A, B: IntoFuture<U, E>, F> {
    state: Chain<T, U, E, A, B::Future, F>,
}

/// The callback accepts every success, and whatever it returns can be turned
/// into a computation.
pub open spec fn total<T, U, E, B: IntoFuture<U, E>, F: FnOnce(T) -> Caught<B>>(f: F) -> bool {
    &&& forall|v: T| call_requires(f, (v,))
    &&& forall|v: T, b: B| #[trigger]
        call_ensures(f, (v,), Ok::<B, String>(b)) ==> b.convertible()
}

/// Chains `f` onto the success of `future`.
pub fn new<T, U, E, A, B, F>(future: A, f: F) -> (chained: AndThen<T, U, E, A, B, F>)
    where
        A: Future<T, E>,
        B: IntoFuture<U, E>,
        F: FnOnce(T) -> Caught<B>,
    requires
        future.wf(),
        total::<T, U, E, B, F>(f),
    ensures
        chained.phase() == Chain::<T, U, E, A, B::Future, F>::new_spec(future, f),
        chained.wf(),
{
    AndThen { state: Chain::new(future, f) }
}

/// `out` is what may follow the first phase when it has finished with `result`
/// and the callback is `f`.
///
/// - An error of the first phase is the error of the whole, as it is; the
///   callback has no part in it.
/// - A success goes to the callback. What it returns is turned into the second
///   computation; if it unwound, the result is the panic error with its message.
pub open spec fn advanced<T, U, E, B: IntoFuture<U, E>, F: FnOnce(T) -> Caught<B>>(
    result: PollResult<T, E>,
    f: F,
    out: PollResult<Result<U, B::Future>, E>,
) -> bool {
    match result {
        Err(e) => out == Err::<Result<U, B::Future>, PollError<E>>(e),
        Ok(v) => match out {
            Ok(Err(second)) => second.wf() && exists|b: B| #[trigger]
                call_ensures(f, (v,), Ok::<B, String>(b)) && call_ensures(
                    B::into_future,
                    (b,),
                    second,
                ),
            Err(PollError::Panicked(Panic::Unwound(message))) => call_ensures(
                f,
                (v,),
                Err::<B, String>(message),
            ),
            _ => false,
        },
    }
}

/// `r` is what the combinator may report once the first phase has been decided
/// as `out`: the error that ended it, or what the second computation reports at
/// its first poll.
pub open spec fn follows<U, E, S: Future<U, E>>(
    out: PollResult<Result<U, S>, E>,
    r: Option<PollResult<U, E>>,
) -> bool {
    match out {
        Ok(Ok(v)) => r == Some(Ok::<U, PollError<E>>(v)),
        Ok(Err(second)) => second.admits(r),
        Err(e) => r == Some(Err::<U, PollError<E>>(e)),
    }
}

/// Decides what follows the first phase from its final result.
///
/// The callback is only ever applied to a success. Nothing is asked of it for
/// an error, so it cannot run on one.
pub fn advance<T, U, E, B, F>(result: PollResult<T, E>, f: F) -> (out: PollResult<
    Result<U, B::Future>,
    E,
>)
    where
        B: IntoFuture<U, E>,
        F: FnOnce(T) -> Caught<B>,
    requires
        result matches Ok(v) ==> {
            &&& call_requires(f, (v,))
            &&& forall|b: B| #[trigger]
                call_ensures(f, (v,), Ok::<B, String>(b)) ==> b.convertible()
        },
    ensures
        advanced::<T, U, E, B, F>(result, f, out),
        result matches Err(e) ==> out == Err::<Result<U, B::Future>, PollError<E>>(e),
{
    let v = match result {
        Ok(v) => v,
        Err(e) => {
            return Err(e);
        },
    };
    match recover::<T, B, E, F>(f, v) {
        Ok(b) => Ok(Err(b.into_future())),
        Err(e) => Err(e),
    }
}

impl<T, U, E, A, B: IntoFuture<U, E>, F> AndThen<T, U, E, A, B, F> {
    /// The phase the combinator is in.
    pub closed spec fn phase(&self) -> Chain<T, U, E, A, B::Future, F> {
        self.state
    }
}

impl<T, U, E, A, B, F> Future<U, E> for AndThen<T, U, E, A, B, F>
    where
        A: Future<T, E>,
        B: IntoFuture<U, E>,
        B::Future: 'static,
        F: FnOnce(T) -> Caught<B>,
 {
    /// The current phase is valid, and a callback that still waits is total.
    open spec fn wf(&self) -> bool {
        &&& self.phase().wf()
        &&& self.phase() matches Chain::First(_, f) ==> total::<T, U, E, B, F>(f)
    }

    /// The computation of the current phase has finished, or there is none.
    open spec fn finished(&self) -> bool {
        self.phase().finished()
    }

    /// In its second phase the combinator is that phase and nothing else.
    open spec fn replaceable(&self) -> bool {
        self.phase() is Second
    }

    /// The combinator listens where the computation of its current phase does.
    open spec fn listens(&self) -> bool {
        self.phase().listens()
    }

    /// The wake handles that the computation of the current phase keeps.
    open spec fn scheduled(&self) -> Seq<Waker> {
        self.phase().scheduled()
    }

    /// In the first phase the combinator is not ready while the first
    /// computation is not, and then reports what [`follows`] from a result that
    /// the first computation admits. In the second phase it reports what the
    /// second computation reports. After that every report is a reuse.
    open spec fn admits(&self, r: Option<PollResult<U, E>>) -> bool {
        match self.phase() {
            Chain::First(a, f) => {
                ||| (r is None && a.admits(None))
                ||| exists|ar: PollResult<T, E>, out: PollResult<Result<U, B::Future>, E>|
                    a.admits(Some(ar)) && #[trigger] advanced::<T, U, E, B, F>(ar, f, out)
                        && follows::<U, E, B::Future>(out, r)
            },
            Chain::Second(b) => b.admits(r),
            Chain::Done => r == Some(Err::<U, PollError<E>>(reused_error())),
        }
    }

    /// While the first computation is not ready the combinator stays in its
    /// first phase, with that computation as its poll left it and with the
    /// callback kept. Once it is ready the phase is what [`Chain::decided`] says
    /// of what [`advance`] gave. In the second phase the combinator stays there,
    /// with the second computation as its poll left it.
    open spec fn steps_to(&self, tokens: Tokens, r: Option<PollResult<U, E>>, next: &Self) -> bool {
        match self.phase() {
            Chain::First(a, f) => {
                ||| (r is None && next.phase() is First && next.phase()->First_1 == f
                    && a.steps_to(tokens, None, next.phase()->First_0))
                ||| exists|
                    ar: PollResult<T, E>,
                    out: PollResult<Result<U, B::Future>, E>,
                    polled: Collapsed<T, E, A>,
                |
                    a.admits(Some(ar)) && #[trigger] a.steps_to(tokens, Some(ar), polled)
                        && #[trigger] advanced::<T, U, E, B, F>(ar, f, out) && Chain::<
                        T,
                        U,
                        E,
                        A,
                        B::Future,
                        F,
                    >::decided(out, r, next.phase())
            },
            Chain::Second(b) => next.phase() is Second && b.steps_to(
                tokens,
                r,
                next.phase()->Second_0,
            ),
            Chain::Done => {
                &&& r == Some(Err::<U, PollError<E>>(reused_error()))
                &&& next.phase() is Done
            },
        }
    }

    /// Runs the first phase, then what [`advance`] decides, then the second
    /// phase.
    fn poll(&mut self, tokens: &Tokens) -> (r: Option<PollResult<U, E>>)
    {
        let r = self.state.poll(tokens, advance::<T, U, E, B, F>);
        proof {
            if let Chain::First(a, f) = old(self).phase() {
                if !(r is None && self.phase() is First) {
                    let (ar, out, polled) = choose|
                        ar: PollResult<T, E>,
                        out: PollResult<Result<U, B::Future>, E>,
                        polled: Collapsed<T, E, A>,
                    |
                        a.admits(Some(ar)) && #[trigger] a.steps_to(*tokens, Some(ar), polled)
                            && #[trigger] call_ensures(advance::<T, U, E, B, F>, (ar, f), out)
                            && Chain::<T, U, E, A, B::Future, F>::decided(out, r, self.phase());
                    assert(advanced::<T, U, E, B, F>(ar, f, out));
                    assert(follows::<U, E, B::Future>(out, r));
                    assert(a.steps_to(*tokens, Some(ar), polled));
                }
            }
        }
        r
    }

    /// Schedules the computation of the current phase.
    fn schedule(&mut self, wake: Waker)
        ensures
            old(self).phase() is First <==> final(self).phase() is First,
            old(self).phase() is Second <==> final(self).phase() is Second,
            old(self).phase() matches Chain::First(_, f) ==> final(self).phase()->First_1 == f,
    {
        self.state.schedule(wake)
    }

    /// In the second phase, offers the second computation in place of the
    /// combinator; in the first, invites the first computation to collapse.
    fn tailcall(&mut self) -> (r: Option<Box<dyn Tail<U, E>>>)
        ensures
            r is Some <==> old(self).phase() is Second,
            old(self).phase() matches Chain::First(a, f) ==> {
                &&& final(self).phase() is First
                &&& final(self).phase()->First_1 == f
                &&& a.collapses_to(final(self).phase()->First_0)
            },
            !(old(self).phase() is First) ==> final(self).phase() is Done,
    {
        let r = self.state.tailcall();
        proof {
            if let Chain::First(a, f) = old(self).phase() {
                assert forall|x: Option<PollResult<U, E>>| #[trigger]
                    self.admits(x) implies old(self).admits(x) by {
                    if !(x is None && self.phase()->First_0.admits(None)) {
                        let (ar, out) = choose|
                            ar: PollResult<T, E>,
                            out: PollResult<Result<U, B::Future>, E>,
                        |
                            self.phase()->First_0.admits(Some(ar)) && #[trigger] advanced::<
                                T,
                                U,
                                E,
                                B,
                                F,
                            >(ar, f, out) && follows::<U, E, B::Future>(out, x);
                        assert(a.admits(Some(ar)));
                    }
                }
            }
        }
        r
    }
}

/// An error of the first phase is the error of the whole: where the first
/// computation can only fail with `e`, the combinator can only report `e`. The
/// callback has no say in it.
pub proof fn lemma_first_error_is_passed_on<T, U, E, A, B, F>(
    c: AndThen<T, U, E, A, B, F>,
    e: PollError<E>,
    r: Option<PollResult<U, E>>,
)
    where
        A: Future<T, E>,
        B: IntoFuture<U, E>,
        B::Future: 'static,
        F: FnOnce(T) -> Caught<B>,
    requires
        c.phase() is First,
        forall|x: Option<PollResult<T, E>>| #[trigger]
            c.phase()->First_0.admits(x) ==> x == Some(Err::<T, PollError<E>>(e)),
        c.admits(r),
    ensures
        r == Some(Err::<U, PollError<E>>(e)),
{
}

/// A callback that unwinds gives a panic error: where the first computation can
/// only succeed with `v` and the callback can only unwind on `v` with
/// `message`, the combinator can only report the panic error that carries
/// `message`.
pub proof fn lemma_unwound_callback_is_a_panic_error<T, U, E, A, B, F>(
    c: AndThen<T, U, E, A, B, F>,
    v: T,
    message: String,
    r: Option<PollResult<U, E>>,
)
    where
        A: Future<T, E>,
        B: IntoFuture<U, E>,
        B::Future: 'static,
        F: FnOnce(T) -> Caught<B>,
    requires
        c.phase() is First,
        forall|x: Option<PollResult<T, E>>| #[trigger]
            c.phase()->First_0.admits(x) ==> x == Some(Ok::<T, PollError<E>>(v)),
        forall|out: Caught<B>| #[trigger]
            call_ensures(c.phase()->First_1, (v,), out) ==> out == Err::<B, String>(message),
        c.admits(r),
    ensures
        r == Some(Err::<U, PollError<E>>(PollError::Panicked(Panic::Unwound(message)))),
{
}

/// A success of the first phase leads to the second computation: where the
/// first computation can only succeed with `v`, the combinator reports what a
/// computation made from what the callback returned for `v` reports at its
/// first poll, or the panic error of a callback that unwound on `v`.
pub proof fn lemma_success_leads_to_the_second<T, U, E, A, B, F>(
    c: AndThen<T, U, E, A, B, F>,
    v: T,
    r: Option<PollResult<U, E>>,
)
    where
        A: Future<T, E>,
        B: IntoFuture<U, E>,
        B::Future: 'static,
        F: FnOnce(T) -> Caught<B>,
    requires
        c.phase() is First,
        forall|x: Option<PollResult<T, E>>| #[trigger]
            c.phase()->First_0.admits(x) ==> x == Some(Ok::<T, PollError<E>>(v)),
        c.admits(r),
    ensures
        ({
            ||| exists|b: B, second: B::Future|
                {
                    &&& #[trigger] call_ensures(c.phase()->First_1, (v,), Ok::<B, String>(b))
                    &&& #[trigger] call_ensures(B::into_future, (b,), second)
                    &&& second.admits(r)
                }
            ||| exists|message: String|
                {
                    &&& #[trigger] call_ensures(
                        c.phase()->First_1,
                        (v,),
                        Err::<B, String>(message),
                    )
                    &&& r == Some(
                        Err::<U, PollError<E>>(PollError::Panicked(Panic::Unwound(message))),
                    )
                }
        }),
{
    let f = c.phase()->First_1;
    let (ar, out) = choose|ar: PollResult<T, E>, out: PollResult<Result<U, B::Future>, E>|
        c.phase()->First_0.admits(Some(ar)) && #[trigger] advanced::<T, U, E, B, F>(ar, f, out)
            && follows::<U, E, B::Future>(out, r);
    match out {
        Ok(Err(second)) => {
            let b = choose|b: B| #[trigger]
                call_ensures(f, (v,), Ok::<B, String>(b)) && call_ensures(
                    B::into_future,
                    (b,),
                    second,
                );
            assert(call_ensures(f, (v,), Ok::<B, String>(b)) && call_ensures(
                B::into_future,
                (b,),
                second,
            ) && second.admits(r));
        },
        Err(PollError::Panicked(Panic::Unwound(message))) => {
            assert(call_ensures(f, (v,), Err::<B, String>(message)));
        },
        _ => {},
    }
}

} // verus!
