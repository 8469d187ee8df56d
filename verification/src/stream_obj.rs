//! Type-erased handles on deferred sequences.
//!
//! A handle stores a sequence of any concrete type behind one uniform type, so
//! that sequences of different kinds can be kept and driven alike.

use crate::stream::{after_poll, stream_runs, Poll, Stream};
use crate::task::Context;
use vstd::prelude::*;
use vstd::std_specs::convert::FromSpecImpl;

verus! {

/// A sequence behind dynamic dispatch: what a handle stores.
pub trait Erased<T> {
    /// See [`Stream::stream_wf`].
    open spec fn erased_wf(&self) -> bool {
        true
    }

    /// See [`Stream::yielded`].
    open spec fn erased_yielded(&self) -> Seq<T> {
        Seq::empty()
    }

    /// `run` is a sequence of reports that polls of the sequence may give from
    /// this state on.
    open spec fn erased_runs(&self, run: Seq<Poll<Option<T>>>) -> bool {
        true
    }

    /// See [`Stream::poll_next`].
    fn poll_erased(&mut self, cx: &Context) -> (r: Poll<Option<T>>)
        requires
            old(self).erased_wf(),
        ensures
            final(self).erased_wf(),
            old(self).erased_runs(seq![r]),
            forall|run: Seq<Poll<Option<T>>>| #[trigger]
                final(self).erased_runs(run) ==> old(self).erased_runs(seq![r] + run),
            final(self).erased_yielded() == after_poll(old(self).erased_yielded(), r),
    ;
}

impl<T, S: Stream<T>> Erased<T> for S {
    open spec fn erased_wf(&self) -> bool {
        self.stream_wf()
    }

    open spec fn erased_yielded(&self) -> Seq<T> {
        self.yielded()
    }

    open spec fn erased_runs(&self, run: Seq<Poll<Option<T>>>) -> bool {
        stream_runs(*self, run)
    }

    fn poll_erased(&mut self, cx: &Context) -> (r: Poll<Option<T>>) {
        let r = self.poll_next(cx);
        proof {
            let step = seq![r];
            assert(stream_runs(*old(self), step)) by {
                assert(old(self).next_to(step[0], self));
                assert(stream_runs(*self, step.drop_first()));
            }
            assert forall|run: Seq<Poll<Option<T>>>| #[trigger]
                stream_runs(*self, run) implies stream_runs(*old(self), step + run) by {
                let whole = step + run;
                assert(whole.drop_first() =~= run);
                assert(old(self).next_to(whole[0], self));
            }
        }
        r
    }
}

/// A sequence that can be wrapped into a type-erased handle.
pub trait UnsafeStreamObj<'a, T>: 'a {
    /// What the handle keeps of the sequence.
    type Raw: Stream<T> + 'a;

    /// The sequence is in a valid state.
    open spec fn source_wf(&self) -> bool {
        true
    }

    /// The items that the sequence has given so far.
    open spec fn source_yielded(&self) -> Seq<T> {
        Seq::empty()
    }

    /// `run` is a sequence of reports that polls of the sequence may give.
    open spec fn source_runs(&self, run: Seq<Poll<Option<T>>>) -> bool {
        true
    }

    /// Converts the sequence into what a handle keeps of it: the same sequence,
    /// in the state it is in.
    fn into_raw(self) -> (raw: Self::Raw)
        ensures
            raw.stream_wf() == self.source_wf(),
            raw.yielded() == self.source_yielded(),
            forall|run: Seq<Poll<Option<T>>>| #[trigger]
                stream_runs(raw, run) ==> self.source_runs(run),
    ;
}

/// A sequence that the handle has on loan. Destroying the handle leaves it to
/// its owner as the last poll left it.
pub struct Borrowed<'a, F> {
    stream: &'a mut F,
}

/// A sequence on the heap that the handle owns. Destroying the handle frees it.
pub struct Owned<F> {
    stream: Box<F>,
}

impl<'a, F> Borrowed<'a, F> {
    /// The sequence on loan, as it is now.
    pub closed spec fn lent(&self) -> F {
        *self.stream
    }
}

impl<F> Owned<F> {
    /// The sequence on the heap.
    pub closed spec fn owned(&self) -> F {
        *self.stream
    }
}

impl<'a, T, F: Stream<T>> Stream<T> for Borrowed<'a, F> {
    closed spec fn stream_wf(&self) -> bool {
        self.stream.stream_wf()
    }

    closed spec fn yielded(&self) -> Seq<T> {
        self.stream.yielded()
    }

    /// The loan goes where the sequence on loan goes.
    closed spec fn next_to(&self, r: Poll<Option<T>>, next: &Self) -> bool {
        self.lent().next_to(r, &next.lent())
    }

    fn poll_next(&mut self, cx: &Context) -> (r: Poll<Option<T>>) {
        self.stream.poll_next(cx)
    }
}

impl<T, F: Stream<T>> Stream<T> for Owned<F> {
    closed spec fn stream_wf(&self) -> bool {
        self.stream.stream_wf()
    }

    closed spec fn yielded(&self) -> Seq<T> {
        self.stream.yielded()
    }

    /// The owner goes where the sequence on the heap goes.
    closed spec fn next_to(&self, r: Poll<Option<T>>, next: &Self) -> bool {
        self.owned().next_to(r, &next.owned())
    }

    fn poll_next(&mut self, cx: &Context) -> (r: Poll<Option<T>>) {
        self.stream.poll_next(cx)
    }
}

impl<'a, T, F: Stream<T> + 'a> UnsafeStreamObj<'a, T> for &'a mut F {
    type Raw = Borrowed<'a, F>;

    open spec fn source_wf(&self) -> bool {
        (**self).stream_wf()
    }

    open spec fn source_yielded(&self) -> Seq<T> {
        (**self).yielded()
    }

    open spec fn source_runs(&self, run: Seq<Poll<Option<T>>>) -> bool {
        stream_runs(**self, run)
    }

    fn into_raw(self) -> (raw: Borrowed<'a, F>) {
        let raw = Borrowed { stream: self };
        proof {
            assert forall|run: Seq<Poll<Option<T>>>| #[trigger]
                stream_runs(raw, run) implies stream_runs(raw.lent(), run) by {
                lemma_loan_runs(raw, run);
            }
        }
        raw
    }
}

impl<'a, T, F: Stream<T> + 'a> UnsafeStreamObj<'a, T> for Box<F> {
    type Raw = Owned<F>;

    open spec fn source_wf(&self) -> bool {
        (**self).stream_wf()
    }

    open spec fn source_yielded(&self) -> Seq<T> {
        (**self).yielded()
    }

    open spec fn source_runs(&self, run: Seq<Poll<Option<T>>>) -> bool {
        stream_runs(**self, run)
    }

    fn into_raw(self) -> (raw: Owned<F>) {
        let raw = Owned { stream: self };
        proof {
            assert forall|run: Seq<Poll<Option<T>>>| #[trigger]
                stream_runs(raw, run) implies stream_runs(raw.owned(), run) by {
                lemma_owner_runs(raw, run);
            }
        }
        raw
    }
}

/// A loan gives no run that the sequence on loan does not give.
proof fn lemma_loan_runs<'a, T, F: Stream<T>>(raw: Borrowed<'a, F>, run: Seq<Poll<Option<T>>>)
    requires
        stream_runs(raw, run),
    ensures
        stream_runs(raw.lent(), run),
    decreases run.len(),
{
    if run.len() > 0 {
        let next = choose|next: Borrowed<'a, F>| #[trigger]
            raw.next_to(run[0], &next) && stream_runs(next, run.drop_first());
        lemma_loan_runs(next, run.drop_first());
        assert(raw.lent().next_to(run[0], &next.lent()));
    }
}

/// An owner gives no run that the sequence it owns does not give.
proof fn lemma_owner_runs<T, F: Stream<T>>(raw: Owned<F>, run: Seq<Poll<Option<T>>>)
    requires
        stream_runs(raw, run),
    ensures
        stream_runs(raw.owned(), run),
    decreases run.len(),
{
    if run.len() > 0 {
        let next = choose|next: Owned<F>| #[trigger]
            raw.next_to(run[0], &next) && stream_runs(next, run.drop_first());
        lemma_owner_runs(next, run.drop_first());
        assert(raw.owned().next_to(run[0], &next.owned()));
    }
}

/// A handle on a sequence of items of type `T`, whatever the sequence is.
#[verifier::reject_recursive_types(T)]
pub struct LocalStreamObj<'a, T> {
    raw: Box<dyn Erased<T> + 'a>,
}

impl<'a, T> LocalStreamObj<'a, T> {
    /// Creates a handle from a sequence that can be wrapped.
    pub fn new<F: UnsafeStreamObj<'a, T> + 'a>(f: F) -> (obj: LocalStreamObj<'a, T>)
        ensures
            obj.stream_wf() == f.source_wf(),
            obj.yielded() == f.source_yielded(),
            forall|run: Seq<Poll<Option<T>>>| #[trigger] obj.runs(run) ==> f.source_runs(run),
    {
        let raw: Box<dyn Erased<T> + 'a> = Box::new(f.into_raw());
        LocalStreamObj { raw }
    }

    /// `run` is a sequence of reports that polls of the handle may give from
    /// now on. A handle gives no run that the sequence behind it does not give.
    pub closed spec fn runs(&self, run: Seq<Poll<Option<T>>>) -> bool {
        self.raw.erased_runs(run)
    }
}

impl<'a, T> Stream<T> for LocalStreamObj<'a, T> {
    closed spec fn stream_wf(&self) -> bool {
        self.raw.erased_wf()
    }

    closed spec fn yielded(&self) -> Seq<T> {
        self.raw.erased_yielded()
    }

    /// A poll reports what starts a run of the handle, and leaves a handle
    /// whose runs are those that go on from there.
    open spec fn next_to(&self, r: Poll<Option<T>>, next: &Self) -> bool {
        &&& self.runs(seq![r])
        &&& forall|run: Seq<Poll<Option<T>>>| #[trigger]
            next.runs(run) ==> self.runs(seq![r] + run)
    }

    /// Polls the sequence behind the handle.
    fn poll_next(&mut self, cx: &Context) -> (r: Poll<Option<T>>) {
        self.raw.poll_erased(cx)
    }
}

/// A handle like [`LocalStreamObj`], made from a sequence that may be handed
/// to another ownership domain.
#[verifier::reject_recursive_types(T)]
pub struct StreamObj<'a, T>(LocalStreamObj<'a, T>);

impl<'a, T> LocalStreamObj<'a, T> {
    /// Converts the handle into a [`StreamObj`].
    ///
    /// The caller vouches that the sequence behind the handle may be handed to
    /// another ownership domain; nothing checks it.
    pub fn into_stream_obj(self) -> (obj: StreamObj<'a, T>)
        ensures
            obj.local() == self,
    {
        StreamObj(self)
    }
}

impl<'a, T> StreamObj<'a, T> {
    /// The handle inside.
    pub closed spec fn local(&self) -> LocalStreamObj<'a, T> {
        self.0
    }

    /// Creates a handle from a sequence that can be wrapped and handed on.
    pub fn new<F: UnsafeStreamObj<'a, T> + Send>(f: F) -> (obj: StreamObj<'a, T>)
        ensures
            obj.stream_wf() == f.source_wf(),
            obj.yielded() == f.source_yielded(),
            forall|run: Seq<Poll<Option<T>>>| #[trigger]
                obj.local().runs(run) ==> f.source_runs(run),
    {
        StreamObj(LocalStreamObj::new(f))
    }
}

impl<'a, T> Stream<T> for StreamObj<'a, T> {
    open spec fn stream_wf(&self) -> bool {
        self.local().stream_wf()
    }

    open spec fn yielded(&self) -> Seq<T> {
        self.local().yielded()
    }

    open spec fn next_to(&self, r: Poll<Option<T>>, next: &Self) -> bool {
        self.local().next_to(r, &next.local())
    }

    /// Polls the sequence behind the handle.
    fn poll_next(&mut self, cx: &Context) -> (r: Poll<Option<T>>) {
        self.0.poll_next(cx)
    }
}

impl<'a, T> From<StreamObj<'a, T>> for LocalStreamObj<'a, T> {
    /// A handle that may be handed on is a handle.
    fn from(f: StreamObj<'a, T>) -> (obj: LocalStreamObj<'a, T>) {
        f.0
    }
}

impl<'a, T> FromSpecImpl<StreamObj<'a, T>> for LocalStreamObj<'a, T> {
    open spec fn obeys_from_spec() -> bool {
        true
    }

    open spec fn from_spec(f: StreamObj<'a, T>) -> LocalStreamObj<'a, T> {
        f.local()
    }
}

impl<'a, F: Stream<()> + 'a> From<Box<F>> for LocalStreamObj<'a, ()> {
    /// A handle that owns the boxed sequence.
    fn from(boxed: Box<F>) -> (obj: LocalStreamObj<'a, ()>)
        ensures
            obj.stream_wf() == boxed.stream_wf(),
            obj.yielded() == boxed.yielded(),
            forall|run: Seq<Poll<Option<()>>>| #[trigger]
                obj.runs(run) ==> stream_runs(*boxed, run),
    {
        LocalStreamObj::new(boxed)
    }
}

impl<'a, F: Stream<()> + 'a> FromSpecImpl<Box<F>> for LocalStreamObj<'a, ()> {
    /// A handle has no spec-level constructor: what the conversion gives is
    /// stated on `from` itself.
    open spec fn obeys_from_spec() -> bool {
        false
    }

    open spec fn from_spec(boxed: Box<F>) -> LocalStreamObj<'a, ()> {
        arbitrary()
    }
}

impl<'a, F: Stream<()> + Send + 'a> From<Box<F>> for StreamObj<'a, ()> {
    /// A handle that owns the boxed sequence and may be handed on.
    fn from(boxed: Box<F>) -> (obj: StreamObj<'a, ()>)
        ensures
            obj.stream_wf() == boxed.stream_wf(),
            obj.yielded() == boxed.yielded(),
            forall|run: Seq<Poll<Option<()>>>| #[trigger]
                obj.local().runs(run) ==> stream_runs(*boxed, run),
    {
        StreamObj::new(boxed)
    }
}

impl<'a, F: Stream<()> + Send + 'a> FromSpecImpl<Box<F>> for StreamObj<'a, ()> {
    /// See the conversion into [`LocalStreamObj`].
    open spec fn obeys_from_spec() -> bool {
        false
    }

    open spec fn from_spec(boxed: Box<F>) -> StreamObj<'a, ()> {
        arbitrary()
    }
}

} // verus!
