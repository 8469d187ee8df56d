//! The `join` combinator: two computations that run side by side and give a pair.

use crate::future::{after_schedule, reused_error, Future, Tail};
use crate::poll::{PollError, PollResult};
use crate::task::{Tokens, Waker};
use crate::util::{done, reused, Collapsed};
use vstd::prelude::*;

verus! {

/// One side of a join: a computation that still runs, the item it gave, or
/// nothing any more.
#[verifier::reject_recursive_types(T)]
#[verifier::reject_recursive_types(E)]
pub enum MaybeDone<T, E, A> {
    /// The computation has not given its item yet.
    NotYet(Collapsed<T, E, A>),
    /// The item, kept until the other side has finished too.
    Done(T),
    /// The item was handed out, or the join failed.
    Gone,
}

/// Which sides of a join a wake handle has to be registered with.
#[derive(Debug, Clone, Copy, PartialEq, Eq, Structural)]
pub enum Interest {
    /// Both sides are still running.
    Both,
    /// Only the left side is still running.
    Left,
    /// Only the right side is still running.
    Right,
    /// Neither side is running: the result is decided and the next poll
    /// delivers it.
    Ready,
}

/// Future for the `join` combinator, waiting for two computations to complete.
#[verifier::reject_recursive_types(T)]
#[verifier::reject_recursive_types(U)]
#[verifier::reject_recursive_types(E)]
pub struct Join<T, U, E, A, B> {
    a: MaybeDone<T, E, A>,
    b: MaybeDone<U, E, B>,
}

/// Joins `a` and `b`. Both start out as not yet done.
pub fn new<T, U, E, A, B>(a: A, b: B) -> (j: Join<T, U, E, A, B>)
    where
        A: Future<T, E>,
        B: Future<U, E>,
    requires
        a.wf(),
        b.wf(),
    ensures
        j.left() == MaybeDone::<T, E, A>::NotYet(Collapsed::Start(a)),
        j.right() == MaybeDone::<U, E, B>::NotYet(Collapsed::Start(b)),
        j.wf(),
{
    let a = Collapsed::Start(a);
    let b = Collapsed::Start(b);
    Join { a: MaybeDone::NotYet(a), b: MaybeDone::NotYet(b) }
}

/// What a join reports once both sides have been polled with the outcomes `ra`
/// and `rb`: the pair when both are done, the first error in left-to-right order
/// when either failed, and "not yet" otherwise.
pub open spec fn settled<T, U, E, A, B>(
    a: MaybeDone<T, E, A>,
    b: MaybeDone<U, E, B>,
    ra: PollResult<bool, E>,
    rb: PollResult<bool, E>,
) -> Option<PollResult<(T, U), E>> {
    match (ra, rb) {
        (Ok(true), Ok(true)) => Some(Ok((a->Done_0, b->Done_0))),
        (Err(e), _) => Some(Err(e)),
        (_, Err(e)) => Some(Err(e)),
        _ => None,
    }
}

/// What a join reports when polling its left side gives `x` and polling its
/// right side gives `y`: the first error in left-to-right order, else the pair
/// when both items are there, else "not yet".
pub open spec fn joined<T, U, E>(
    x: Option<PollResult<T, E>>,
    y: Option<PollResult<U, E>>,
) -> Option<PollResult<(T, U), E>> {
    match (x, y) {
        (Some(Err(e)), _) => Some(Err(e)),
        (_, Some(Err(e))) => Some(Err(e)),
        (Some(Ok(i)), Some(Ok(j))) => Some(Ok((i, j))),
        _ => None,
    }
}

impl<T, E, A: Future<T, E>> MaybeDone<T, E, A> {
    /// A computation that still runs is in a valid state.
    pub open spec fn wf(&self) -> bool {
        match self {
            MaybeDone::NotYet(a) => a.wf(),
            _ => true,
        }
    }

    /// A poll of this side reports a reuse.
    pub open spec fn spent(&self) -> bool {
        match self {
            MaybeDone::NotYet(a) => a.finished(),
            MaybeDone::Done(_) => false,
            MaybeDone::Gone => true,
        }
    }

    /// The computation of this side runs and listens.
    pub open spec fn listens(&self) -> bool {
        match self {
            MaybeDone::NotYet(a) => a.listens(),
            _ => false,
        }
    }

    /// The wake handles that the computation of this side keeps while it runs.
    pub open spec fn scheduled(&self) -> Seq<Waker> {
        match self {
            MaybeDone::NotYet(a) => a.scheduled(),
            _ => Seq::empty(),
        }
    }

    /// `after` is what scheduling with `wake` makes of this side: a computation
    /// that runs has been scheduled with `wake` and goes on only as it might
    /// have gone on unscheduled, and a side without one is as it was.
    pub open spec fn scheduled_with(&self, wake: Waker, after: Self) -> bool {
        match self {
            MaybeDone::NotYet(_) => {
                &&& after is NotYet
                &&& after.listens() == self.listens()
                &&& after.scheduled() == after_schedule(self.listens(), self.scheduled(), wake)
                &&& forall|tokens: Tokens, x: Option<PollResult<T, E>>, next: Self| #[trigger]
                    after.moves(tokens, x, next) ==> self.moves(tokens, x, next)
            },
            _ => after == *self,
        }
    }

    /// `after` is what collapsing makes of this side: a computation that runs
    /// has been collapsed, and a side without one is as it was.
    pub open spec fn collapses_to(&self, after: Self) -> bool {
        match self {
            MaybeDone::NotYet(a) => after matches MaybeDone::NotYet(b) && a.collapses_to(b),
            _ => after == *self,
        }
    }

    /// `after` is what a poll with `tokens` makes of this side when the side
    /// makes `x` of it. A computation that gives its item is replaced by the
    /// item; one that does not stays, as its own poll left it. A side without a
    /// computation is not polled and stays as it is.
    pub open spec fn moves(
        &self,
        tokens: Tokens,
        x: Option<PollResult<T, E>>,
        after: Self,
    ) -> bool {
        match *self {
            MaybeDone::NotYet(a) => match x {
                Some(Ok(v)) => {
                    &&& after == MaybeDone::<T, E, A>::Done(v)
                    &&& exists|b: Collapsed<T, E, A>| #[trigger] a.steps_to(tokens, x, b)
                },
                _ => after matches MaybeDone::NotYet(b) && a.steps_to(tokens, x, b),
            },
            MaybeDone::Done(v) => x == Some(Ok::<T, PollError<E>>(v)) && after == *self,
            MaybeDone::Gone => x == Some(Err::<T, PollError<E>>(reused_error())) && after == *self,
        }
    }

    /// `x` is something that this side may make of a poll: what its computation
    /// admits while it runs, the item once it is kept, a reuse when it is gone.
    pub open spec fn gives(&self, x: Option<PollResult<T, E>>) -> bool {
        match self {
            MaybeDone::NotYet(a) => a.admits(x),
            MaybeDone::Done(v) => x == Some(Ok::<T, PollError<E>>(*v)),
            MaybeDone::Gone => x == Some(Err::<T, PollError<E>>(reused_error())),
        }
    }

    /// How a side that made `x` of a poll reports it and what it is afterwards:
    /// an item is kept, anything else leaves the side of the same kind.
    pub open spec fn kept(
        before: Self,
        x: Option<PollResult<T, E>>,
        r: PollResult<bool, E>,
        after: Self,
    ) -> bool {
        match x {
            None => r == Ok::<bool, PollError<E>>(false) && after is NotYet,
            Some(Ok(v)) => {
                &&& r == Ok::<bool, PollError<E>>(true)
                &&& after == MaybeDone::<T, E, A>::Done(v)
            },
            Some(Err(e)) => {
                &&& r == Err::<bool, PollError<E>>(e)
                &&& after is Gone <==> before is Gone
                &&& after is NotYet <==> before is NotYet
            },
        }
    }

    /// Polls this side. `Ok(true)` says that the item is there, `Ok(false)` that
    /// the computation still runs. A side that is gone reports a reuse. An error
    /// of the computation is passed on and leaves the side as it is.
    pub fn poll(&mut self, tokens: &Tokens) -> (r: PollResult<bool, E>)
        requires
            old(self).wf(),
        ensures
            final(self).wf(),
            old(self).spent() ==> r == Err::<bool, PollError<E>>(reused_error()),
            exists|x: Option<PollResult<T, E>>| #[trigger]
                old(self).gives(x) && Self::kept(*old(self), x, r, *final(self)) && old(
                    self,
                ).moves(*tokens, x, *final(self)),
            match *old(self) {
                MaybeDone::Done(_) => r == Ok::<bool, PollError<E>>(true) && *final(self) == *old(
                    self,
                ),
                MaybeDone::Gone => *final(self) == *old(self),
                MaybeDone::NotYet(_) => match r {
                    Ok(true) => *final(self) is Done,
                    Ok(false) => *final(self) is NotYet && !final(self).spent(),
                    Err(_) => *final(self) is NotYet && final(self).spent(),
                },
            },
    {
        let res = match self {
            MaybeDone::NotYet(a) => a.poll(tokens),
            MaybeDone::Done(_) => {
                proof {
                    let x = Some(Ok::<T, PollError<E>>(old(self)->Done_0));
                    assert(old(self).gives(x) && Self::kept(*old(self), x, Ok(true), *self));
                    assert(old(self).moves(*tokens, x, *self));
                }
                return Ok(true);
            },
            MaybeDone::Gone => {
                proof {
                    let x = Some(Err::<T, PollError<E>>(reused_error()));
                    assert(old(self).gives(x) && Self::kept(
                        *old(self),
                        x,
                        Err(reused_error()),
                        *self,
                    ));
                    assert(old(self).moves(*tokens, x, *self));
                }
                return Err(reused());
            },
        };
        assert(old(self).gives(res));
        let ghost polled = self->NotYet_0;
        assert(old(self)->NotYet_0.steps_to(*tokens, res, polled));
        match res {
            Some(Ok(item)) => {
                *self = MaybeDone::Done(item);
                assert(Self::kept(*old(self), res, Ok(true), *self));
                assert(old(self).moves(*tokens, res, *self));
                Ok(true)
            },
            Some(Err(e)) => {
                assert(Self::kept(*old(self), res, Err(e), *self));
                assert(old(self).moves(*tokens, res, *self));
                Err(e)
            },
            None => {
                assert(Self::kept(*old(self), res, Ok(false), *self));
                assert(old(self).moves(*tokens, res, *self));
                Ok(false)
            },
        }
    }

    /// Hands the item out and leaves the side gone.
    pub fn take(&mut self) -> (item: T)
        requires
            *old(self) is Done,
        ensures
            *old(self) == MaybeDone::<T, E, A>::Done(item),
            *final(self) is Gone,
    {
        let mut taken = MaybeDone::Gone;
        std::mem::swap(self, &mut taken);
        match taken {
            MaybeDone::Done(item) => item,
            _ => vstd::pervasive::unreached(),
        }
    }

    /// Registers `wake` with the computation of a side that still runs. A side
    /// without one stays as it is.
    pub fn schedule(&mut self, wake: Waker)
        requires
            old(self).wf(),
        ensures
            final(self).wf(),
            *final(self) is NotYet <==> *old(self) is NotYet,
            final(self).spent() == old(self).spent(),
            old(self).scheduled_with(wake, *final(self)),
            forall|x: Option<PollResult<T, E>>| #[trigger]
                final(self).gives(x) ==> old(self).gives(x),
    {
        match self {
            MaybeDone::NotYet(a) => a.schedule(wake),
            _ => {},
        }
    }

    /// Invites a computation that still runs to collapse.
    pub fn collapse(&mut self)
        requires
            old(self).wf(),
        ensures
            final(self).wf(),
            final(self).spent() == old(self).spent(),
            *old(self) is NotYet <==> *final(self) is NotYet,
            !(*old(self) is NotYet) ==> *final(self) == *old(self),
            old(self).collapses_to(*final(self)),
            forall|x: Option<PollResult<T, E>>| #[trigger]
                final(self).gives(x) ==> old(self).gives(x),
    {
        match self {
            MaybeDone::NotYet(a) => a.collapse(),
            _ => {},
        }
    }
}

impl<T, U, E, A: Future<T, E>, B: Future<U, E>> Join<T, U, E, A, B> {
    /// The left side.
    pub closed spec fn left(&self) -> MaybeDone<T, E, A> {
        self.a
    }

    /// The right side.
    pub closed spec fn right(&self) -> MaybeDone<U, E, B> {
        self.b
    }

    /// Which sides a wake handle has to go to: every side that still runs, and
    /// no side that holds its item or is gone.
    pub open spec fn interest_spec(&self) -> Interest {
        if self.left() is NotYet && self.right() is NotYet {
            Interest::Both
        } else if self.left() is NotYet {
            Interest::Left
        } else if self.right() is NotYet {
            Interest::Right
        } else {
            Interest::Ready
        }
    }

    /// Which sides [`Future::schedule`] registers a wake handle with.
    pub fn interest(&self) -> (i: Interest)
        ensures
            i == self.interest_spec(),
    {
        match (&self.a, &self.b) {
            (MaybeDone::NotYet(_), MaybeDone::NotYet(_)) => Interest::Both,
            (MaybeDone::NotYet(_), _) => Interest::Left,
            (_, MaybeDone::NotYet(_)) => Interest::Right,
            _ => Interest::Ready,
        }
    }

    /// Decides the join from the outcomes `ra` and `rb` of polling the left and
    /// the right side, in that order.
    ///
    /// With both items there, the pair is moved out. With an error on either
    /// side, that error is the result, and the left one wins where both failed.
    /// Either way both sides are gone afterwards. Otherwise nothing changes and
    /// the join is not ready yet.
    pub fn settle(&mut self, ra: PollResult<bool, E>, rb: PollResult<bool, E>) -> (r: Option<
        PollResult<(T, U), E>,
    >)
        requires
            ra == Ok::<bool, PollError<E>>(true) && rb == Ok::<bool, PollError<E>>(true)
                ==> old(self).left() is Done && old(self).right() is Done,
        ensures
            r == settled(old(self).left(), old(self).right(), ra, rb),
            r is Some ==> final(self).left() is Gone && final(self).right() is Gone,
            r is None ==> *final(self) == *old(self),
    {
        match (ra, rb) {
            (Ok(true), Ok(true)) => {
                let first = self.a.take();
                let second = self.b.take();
                Some(Ok((first, second)))
            },
            (Err(e), _) => {
                self.a = MaybeDone::Gone;
                self.b = MaybeDone::Gone;
                Some(Err(e))
            },
            (_, Err(e)) => {
                self.a = MaybeDone::Gone;
                self.b = MaybeDone::Gone;
                Some(Err(e))
            },
            (Ok(_), Ok(_)) => None,
        }
    }
}

impl<T, U, E, A: Future<T, E>, B: Future<U, E>> Future<(T, U), E> for Join<T, U, E, A, B> {
    /// Both sides are valid, and the two items are never held at once between
    /// two calls: a poll that finds both hands the pair out.
    open spec fn wf(&self) -> bool {
        &&& self.left().wf()
        &&& self.right().wf()
        &&& !(self.left() is Done && self.right() is Done)
    }

    /// The first side in left-to-right order that does not hold its item is
    /// spent.
    open spec fn finished(&self) -> bool {
        if self.left() is Done {
            self.right().spent()
        } else {
            self.left().spent()
        }
    }

    /// A join reports what [`joined`] makes of something that its left side
    /// gives and something that its right side gives.
    open spec fn admits(&self, r: Option<PollResult<(T, U), E>>) -> bool {
        exists|x: Option<PollResult<T, E>>, y: Option<PollResult<U, E>>|
            #![trigger self.left().gives(x), self.right().gives(y)]
            self.left().gives(x) && self.right().gives(y) && r == joined(x, y)
    }

    /// Both sides are polled with the tokens of the join. A join that is not
    /// ready is made of the two sides as their polls left them: a side that gave
    /// its item holds it, a side that did not still runs. A join that is ready
    /// has both sides gone.
    open spec fn steps_to(
        &self,
        tokens: Tokens,
        r: Option<PollResult<(T, U), E>>,
        next: &Self,
    ) -> bool {
        exists|
            x: Option<PollResult<T, E>>,
            y: Option<PollResult<U, E>>,
            a: MaybeDone<T, E, A>,
            b: MaybeDone<U, E, B>,
        |
            #![trigger self.left().moves(tokens, x, a), self.right().moves(tokens, y, b)]
            {
                &&& self.left().gives(x)
                &&& self.right().gives(y)
                &&& self.left().moves(tokens, x, a)
                &&& self.right().moves(tokens, y, b)
                &&& r == joined(x, y)
                &&& r is Some ==> next.left() is Gone && next.right() is Gone
                &&& r is None ==> next.left() == a && next.right() == b
            }
    }

    /// Polls the left side, then the right side, and settles the join from the
    /// two outcomes.
    fn poll(&mut self, tokens: &Tokens) -> (r: Option<PollResult<(T, U), E>>)
        ensures
            r is Some ==> final(self).left() is Gone && final(self).right() is Gone,
            r is None ==> !(final(self).left() is Gone) && !(final(self).right() is Gone),
            r matches Some(Ok(pair)) ==> {
                &&& old(self).left() matches MaybeDone::Done(i) ==> pair.0 == i
                &&& old(self).right() matches MaybeDone::Done(j) ==> pair.1 == j
            },
            r is None && old(self).left() is Done ==> final(self).left() == old(self).left(),
            r is None && old(self).right() is Done ==> final(self).right() == old(self).right(),
    {
        let ra = self.a.poll(tokens);
        let ghost mid_a = self.a;
        let rb = self.b.poll(tokens);
        let ghost mid_b = self.b;
        let r = self.settle(ra, rb);
        proof {
            let x = choose|x: Option<PollResult<T, E>>| #[trigger]
                old(self).a.gives(x) && MaybeDone::kept(old(self).a, x, ra, mid_a) && old(
                    self,
                ).a.moves(*tokens, x, mid_a);
            let y = choose|y: Option<PollResult<U, E>>| #[trigger]
                old(self).b.gives(y) && MaybeDone::kept(old(self).b, y, rb, mid_b) && old(
                    self,
                ).b.moves(*tokens, y, mid_b);
            assert(old(self).left().gives(x) && old(self).right().gives(y));
            assert(r == joined(x, y));
            assert(old(self).left().moves(*tokens, x, mid_a) && old(self).right().moves(
                *tokens,
                y,
                mid_b,
            ));
        }
        r
    }

    /// Registers `wake` with the sides that [`Join::interest`] names: each side
    /// that runs is scheduled with it, and a side that does not is left alone.
    /// A join keeps no handle of its own. With no side left running the result
    /// is already decided, and `wake` is notified at once so that the next poll
    /// delivers it.
    fn schedule(&mut self, wake: Waker)
        ensures
            final(self).interest_spec() == old(self).interest_spec(),
            !(old(self).left() is NotYet) ==> final(self).left() == old(self).left(),
            !(old(self).right() is NotYet) ==> final(self).right() == old(self).right(),
            final(self).left().spent() == old(self).left().spent(),
            final(self).right().spent() == old(self).right().spent(),
            old(self).left().scheduled_with(wake, final(self).left()),
            old(self).right().scheduled_with(wake, final(self).right()),
    {
        match self.interest() {
            Interest::Both => {
                self.a.schedule(wake.clone());
                self.b.schedule(wake);
            },
            Interest::Left => {
                self.a.schedule(wake);
            },
            Interest::Right => {
                self.b.schedule(wake);
            },
            Interest::Ready => {
                done(wake);
            },
        }
    }

    /// Invites both sides to collapse. A join never replaces itself.
    fn tailcall(&mut self) -> (r: Option<Box<dyn Tail<(T, U), E>>>)
        ensures
            r is None,
            final(self).interest_spec() == old(self).interest_spec(),
            old(self).left().collapses_to(final(self).left()),
            old(self).right().collapses_to(final(self).right()),
    {
        self.a.collapse();
        self.b.collapse();
        None
    }
}

/// Two computations that are ready give their pair: where the left side can
/// only give the item `i` and the right side only the item `k`, the join can
/// only report `(i, k)`.
pub proof fn lemma_ready_sides_give_the_pair<T, U, E, A, B>(
    j: Join<T, U, E, A, B>,
    i: T,
    k: U,
    r: Option<PollResult<(T, U), E>>,
)
    where
        A: Future<T, E>,
        B: Future<U, E>,
    requires
        forall|x: Option<PollResult<T, E>>| #[trigger]
            j.left().gives(x) ==> x == Some(Ok::<T, PollError<E>>(i)),
        forall|y: Option<PollResult<U, E>>| #[trigger]
            j.right().gives(y) ==> y == Some(Ok::<U, PollError<E>>(k)),
        j.admits(r),
    ensures
        r == Some(Ok::<(T, U), PollError<E>>((i, k))),
{
}

/// The left error wins: where the left side can only fail with `e`, the join
/// can only report `e`, whatever the right side does, its own failure included.
pub proof fn lemma_left_error_wins<T, U, E, A, B>(
    j: Join<T, U, E, A, B>,
    e: PollError<E>,
    r: Option<PollResult<(T, U), E>>,
)
    where
        A: Future<T, E>,
        B: Future<U, E>,
    requires
        forall|x: Option<PollResult<T, E>>| #[trigger]
            j.left().gives(x) ==> x == Some(Err::<T, PollError<E>>(e)),
        j.admits(r),
    ensures
        r == Some(Err::<(T, U), PollError<E>>(e)),
{
}

/// A join hands its result out once: when the left side is gone, every report
/// is a reuse.
pub proof fn lemma_gone_is_reuse<T, U, E, A, B>(
    j: Join<T, U, E, A, B>,
    r: Option<PollResult<(T, U), E>>,
)
    where
        A: Future<T, E>,
        B: Future<U, E>,
    requires
        j.left() is Gone,
        j.admits(r),
    ensures
        r == Some(Err::<(T, U), PollError<E>>(reused_error())),
{
}

} // verus!
