use deferred::and_then;
use deferred::done::{done, Done};
use deferred::future::Future;
use deferred::join;
use deferred::map_err;
use deferred::poll::{Panic, PollError, PollResult};
use deferred::task::{Tokens, Wake, Waker};
use std::sync::atomic::{AtomicUsize, Ordering};
use std::sync::Arc;

struct CountWake {
    hits: Arc<AtomicUsize>,
}

impl Wake for CountWake {
    fn wake(&self, _tokens: &Tokens) {
        self.hits.fetch_add(1, Ordering::SeqCst);
    }
}

fn counting_waker() -> (Waker, Arc<AtomicUsize>) {
    let hits = Arc::new(AtomicUsize::new(0));
    (Waker::new(CountWake { hits: hits.clone() }), hits)
}

/// A computation that is pending for a number of polls, then gives its result.
struct Later {
    wait: usize,
    result: Option<Result<i32, &'static str>>,
    polls: usize,
    scheduled: usize,
}

impl Later {
    fn new(wait: usize, result: Result<i32, &'static str>) -> Later {
        Later { wait, result: Some(result), polls: 0, scheduled: 0 }
    }
}

impl Future<i32, &'static str> for Later {
    fn poll(&mut self, _tokens: &Tokens) -> Option<PollResult<i32, &'static str>> {
        self.polls += 1;
        if self.wait > 0 {
            self.wait -= 1;
            return None;
        }
        match self.result.take() {
            Some(Ok(v)) => Some(Ok(v)),
            Some(Err(e)) => Some(Err(PollError::Other(e))),
            None => Some(Err(PollError::Panicked(Panic::Reused))),
        }
    }

    fn schedule(&mut self, _wake: Waker) {
        self.scheduled += 1;
    }

    fn tailcall(&mut self) -> Option<Box<dyn deferred::future::Tail<i32, &'static str>>> {
        None
    }
}

fn reuse<T, E>() -> Option<PollResult<T, E>> {
    Some(Err(PollError::Panicked(Panic::Reused)))
}

#[test]
fn done_delivers_once_then_reports_reuse() {
    let mut d: Done<i32, &'static str> = done(Ok(3));
    assert_eq!(d.poll(&Tokens::all()), Some(Ok(3)));
    assert_eq!(d.poll(&Tokens::all()), reuse());
    assert_eq!(d.poll(&Tokens::all()), reuse());
}

#[test]
fn join_of_two_ready_computations_gives_the_pair_once() {
    let a: Done<i32, &'static str> = done(Ok(5));
    let b: Done<i32, &'static str> = done(Ok(7));
    let mut j = join::new(a, b);
    assert_eq!(j.poll(&Tokens::all()), Some(Ok((5, 7))));
    assert_eq!(j.poll(&Tokens::all()), reuse());
}

#[test]
fn join_reports_the_left_error_when_both_fail() {
    let a: Done<i32, &'static str> = done(Err("left"));
    let b: Done<i32, &'static str> = done(Err("right"));
    let mut j = join::new(a, b);
    assert_eq!(j.poll(&Tokens::all()), Some(Err(PollError::Other("left"))));
    assert_eq!(j.poll(&Tokens::all()), reuse());
}

#[test]
fn join_reports_the_right_error_when_only_the_right_fails() {
    let a = Later::new(3, Ok(1));
    let b: Done<i32, &'static str> = done(Err("right"));
    let mut j = join::new(a, b);
    assert_eq!(j.poll(&Tokens::all()), Some(Err(PollError::Other("right"))));
}

#[test]
fn join_waits_for_the_slower_side() {
    let a = Later::new(2, Ok(1));
    let b = Later::new(0, Ok(2));
    let mut j = join::new(a, b);
    assert_eq!(j.interest(), join::Interest::Both);
    assert_eq!(j.poll(&Tokens::all()), None);
    assert_eq!(j.interest(), join::Interest::Left);
    assert_eq!(j.poll(&Tokens::all()), None);
    assert_eq!(j.poll(&Tokens::all()), Some(Ok((1, 2))));
    assert_eq!(j.interest(), join::Interest::Ready);
    assert_eq!(j.poll(&Tokens::all()), reuse());
}

#[test]
fn join_schedule_notifies_at_once_when_nothing_runs() {
    let a: Done<i32, &'static str> = done(Err("left"));
    let b: Done<i32, &'static str> = done(Ok(1));
    let mut j = join::new(a, b);
    assert_eq!(j.poll(&Tokens::all()), Some(Err(PollError::Other("left"))));
    let (waker, hits) = counting_waker();
    j.schedule(waker);
    assert_eq!(hits.load(Ordering::SeqCst), 1);
}

#[test]
fn join_schedule_registers_with_running_sides_only() {
    let a = Later::new(5, Ok(1));
    let b = Later::new(0, Ok(2));
    let mut j = join::new(a, b);
    let (waker, hits) = counting_waker();
    j.schedule(waker.clone());
    assert_eq!(j.poll(&Tokens::all()), None);
    j.schedule(waker);
    assert_eq!(hits.load(Ordering::SeqCst), 0);
}

#[test]
fn map_err_maps_an_ordinary_error() {
    let a: Done<i32, &'static str> = done(Err("boom"));
    let mut m = map_err::new(a, |e: &'static str| Ok::<usize, String>(e.len()));
    assert_eq!(m.poll(&Tokens::all()), Some(Err(PollError::Other(4usize))));
    assert_eq!(m.poll(&Tokens::all()), reuse());
}

#[test]
fn map_err_passes_a_success_through() {
    let a: Done<i32, &'static str> = done(Ok(9));
    let mut m = map_err::new(a, |e: &'static str| Ok::<usize, String>(e.len()));
    assert_eq!(m.poll(&Tokens::all()), Some(Ok(9)));
}

#[test]
fn map_err_leaves_a_panic_error_as_it_is() {
    let called = Arc::new(AtomicUsize::new(0));
    let seen = called.clone();
    let f = move |e: &'static str| {
        seen.fetch_add(1, Ordering::SeqCst);
        Ok::<usize, String>(e.len())
    };
    let r: PollResult<i32, usize> = map_err::deliver(
        Some(f),
        Err(PollError::Panicked(Panic::Unwound(String::from("upstream")))),
    );
    assert_eq!(r, Err(PollError::Panicked(Panic::Unwound(String::from("upstream")))));
    assert_eq!(called.load(Ordering::SeqCst), 0);
}

#[test]
fn map_err_turns_an_unwound_callback_into_a_panic_error() {
    let a: Done<i32, &'static str> = done(Err("boom"));
    let mut m = map_err::new(a, |_e: &'static str| Err::<usize, String>(String::from("mapper")));
    assert_eq!(
        m.poll(&Tokens::all()),
        Some(Err(PollError::Panicked(Panic::Unwound(String::from("mapper")))))
    );
}

#[test]
fn and_then_runs_the_second_computation() {
    let a: Done<i32, &'static str> = done(Ok(2));
    let mut c = and_then::new(a, |v: i32| Ok::<Result<i32, &'static str>, String>(Ok(v * 10)));
    assert_eq!(c.poll(&Tokens::all()), Some(Ok(20)));
    assert_eq!(c.poll(&Tokens::all()), reuse());
}

#[test]
fn and_then_passes_the_first_error_on_without_calling_back() {
    let called = Arc::new(AtomicUsize::new(0));
    let seen = called.clone();
    let a: Done<i32, &'static str> = done(Err("first"));
    let mut c = and_then::new(a, move |v: i32| {
        seen.fetch_add(1, Ordering::SeqCst);
        Ok::<Result<i32, &'static str>, String>(Ok(v))
    });
    assert_eq!(c.poll(&Tokens::all()), Some(Err(PollError::Other("first"))));
    assert_eq!(called.load(Ordering::SeqCst), 0);
}

#[test]
fn and_then_turns_an_unwound_callback_into_a_panic_error() {
    let a: Done<i32, &'static str> = done(Ok(2));
    let mut c = and_then::new(a, |_v: i32| {
        Err::<Result<i32, &'static str>, String>(String::from("callback"))
    });
    assert_eq!(
        c.poll(&Tokens::all()),
        Some(Err(PollError::Panicked(Panic::Unwound(String::from("callback")))))
    );
    assert_eq!(c.poll(&Tokens::all()), reuse());
}
