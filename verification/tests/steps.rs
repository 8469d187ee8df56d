use deferred::and_then::advance;
use deferred::done::{done, Done};
use deferred::future::{Future, IntoFuture};
use deferred::join::{self, MaybeDone};
use deferred::poll::{Panic, PollError, PollResult};
use deferred::task::{Tokens, Wake, Waker};
use deferred::util::Collapsed;
use std::sync::atomic::{AtomicUsize, Ordering};
use std::sync::Arc;

struct CountWake(Arc<AtomicUsize>);

impl Wake for CountWake {
    fn wake(&self, _tokens: &Tokens) {
        self.0.fetch_add(1, Ordering::SeqCst);
    }
}

type Side = MaybeDone<i32, &'static str, Done<i32, &'static str>>;

#[test]
fn a_side_keeps_its_item_until_it_is_taken() {
    let mut side: Side = MaybeDone::NotYet(Collapsed::Start(done(Ok(8))));
    assert_eq!(side.poll(&Tokens::all()), Ok(true));
    assert!(matches!(side, MaybeDone::Done(8)));
    assert_eq!(side.poll(&Tokens::all()), Ok(true));
    assert_eq!(side.take(), 8);
    assert!(matches!(side, MaybeDone::Gone));
    assert_eq!(side.poll(&Tokens::all()), Err(PollError::Panicked(Panic::Reused)));
}

#[test]
fn a_side_passes_an_error_on_and_stays() {
    let mut side: Side = MaybeDone::NotYet(Collapsed::Start(done(Err("bad"))));
    assert_eq!(side.poll(&Tokens::all()), Err(PollError::Other("bad")));
    assert!(matches!(side, MaybeDone::NotYet(_)));
    assert_eq!(side.poll(&Tokens::all()), Err(PollError::Panicked(Panic::Reused)));
}

#[test]
fn settling_prefers_the_left_error() {
    let a: Done<i32, &'static str> = done(Ok(1));
    let b: Done<i32, &'static str> = done(Ok(2));
    let mut j = join::new(a, b);
    let r = j.settle(Err(PollError::Other("left")), Err(PollError::Other("right")));
    assert_eq!(r, Some(Err(PollError::Other("left"))));
    assert_eq!(j.interest(), join::Interest::Ready);
    assert_eq!(j.poll(&Tokens::all()), Some(Err(PollError::Panicked(Panic::Reused))));
}

#[test]
fn settling_waits_while_a_side_runs() {
    let a: Done<i32, &'static str> = done(Ok(1));
    let b: Done<i32, &'static str> = done(Ok(2));
    let mut j = join::new(a, b);
    assert_eq!(j.settle(Ok(true), Ok(false)), None);
    assert_eq!(j.settle(Ok(false), Ok(false)), None);
    assert_eq!(j.interest(), join::Interest::Both);
    let r = j.settle(Ok(false), Err(PollError::Other("right")));
    assert_eq!(r, Some(Err(PollError::Other("right"))));
}

#[test]
fn advancing_passes_an_error_on_without_the_callback() {
    let called = Arc::new(AtomicUsize::new(0));
    let seen = called.clone();
    let out: PollResult<Result<i32, Done<i32, &'static str>>, &'static str> = advance(
        Err(PollError::Other("first")),
        move |v: i32| {
            seen.fetch_add(1, Ordering::SeqCst);
            Ok::<Result<i32, &'static str>, String>(Ok(v))
        },
    );
    assert!(matches!(out, Err(PollError::Other("first"))));
    assert_eq!(called.load(Ordering::SeqCst), 0);
}

#[test]
fn advancing_makes_the_second_computation() {
    let out: PollResult<Result<i32, Done<i32, &'static str>>, &'static str> =
        advance(Ok(3), |v: i32| Ok::<Result<i32, &'static str>, String>(Ok(v + 1)));
    match out {
        Ok(Err(mut second)) => assert_eq!(second.poll(&Tokens::all()), Some(Ok(4))),
        _ => panic!("a success leads to a second computation"),
    }
}

#[test]
fn advancing_marks_an_unwound_callback() {
    let out: PollResult<Result<i32, Done<i32, &'static str>>, &'static str> =
        advance(Ok(3), |_v: i32| Err::<Result<i32, &'static str>, String>(String::from("no")));
    assert!(matches!(out, Err(PollError::Panicked(Panic::Unwound(m))) if m == "no"));
}

#[test]
fn a_result_becomes_a_computation() {
    let mut ok = IntoFuture::<i32, &'static str>::into_future(Ok::<i32, &'static str>(1));
    assert_eq!(ok.poll(&Tokens::all()), Some(Ok(1)));
    let mut bad = IntoFuture::<i32, &'static str>::into_future(Err::<i32, &'static str>("e"));
    assert_eq!(bad.poll(&Tokens::all()), Some(Err(PollError::Other("e"))));
    let mut same = done::<i32, &'static str>(Ok(2)).into_future();
    assert_eq!(same.poll(&Tokens::all()), Some(Ok(2)));
}

#[test]
fn a_ready_computation_notifies_at_once() {
    let hits = Arc::new(AtomicUsize::new(0));
    let mut d: Done<i32, &'static str> = done(Ok(1));
    d.schedule(Waker::new(CountWake(hits.clone())));
    assert_eq!(hits.load(Ordering::SeqCst), 1);
    let mut wrapped = Collapsed::Start(d);
    wrapped.schedule(Waker::new(CountWake(hits.clone())));
    assert_eq!(hits.load(Ordering::SeqCst), 2);
    deferred::util::done(Waker::new(CountWake(hits.clone())));
    assert_eq!(hits.load(Ordering::SeqCst), 3);
    assert_eq!(wrapped.poll(&Tokens::all()), Some(Ok(1)));
}
