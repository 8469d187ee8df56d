use deferred::and_then;
use deferred::chain::Chain;
use deferred::done::{done, Done};
use deferred::future::{Future, IntoFuture, Tail};
use deferred::join;
use deferred::map_err;
use deferred::poll::{Panic, PollError, PollResult};
use deferred::task::{Tokens, Waker};
use deferred::util::{opt2poll, recover, reused, Collapsed};

/// Pending for a number of polls, then ready with a value.
struct Slow {
    wait: usize,
    value: Option<i32>,
}

impl Future<i32, &'static str> for Slow {
    fn poll(&mut self, _tokens: &Tokens) -> Option<PollResult<i32, &'static str>> {
        if self.wait > 0 {
            self.wait -= 1;
            return None;
        }
        match self.value.take() {
            Some(v) => Some(Ok(v)),
            None => Some(Err(PollError::Panicked(Panic::Reused))),
        }
    }

    fn schedule(&mut self, _wake: Waker) {}

    fn tailcall(&mut self) -> Option<Box<dyn Tail<i32, &'static str>>> {
        None
    }
}

impl IntoFuture<i32, &'static str> for Slow {
    type Future = Slow;

    fn into_future(self) -> Slow {
        self
    }
}

fn reuse<T, E>() -> Option<PollResult<T, E>> {
    Some(Err(PollError::Panicked(Panic::Reused)))
}

#[test]
fn and_then_offers_no_replacement_in_its_first_phase() {
    let first = Slow { wait: 1, value: Some(1) };
    let mut c = and_then::new(first, |v: i32| Ok::<Slow, String>(Slow { wait: 0, value: Some(v) }));
    assert!(c.tailcall().is_none());
    assert_eq!(c.poll(&Tokens::all()), None);
    assert!(c.tailcall().is_none());
    assert_eq!(c.poll(&Tokens::all()), Some(Ok(1)));
}

#[test]
fn and_then_hands_its_second_phase_over() {
    let first: Done<i32, &'static str> = done(Ok(4));
    let mut c = and_then::new(first, |v: i32| {
        Ok::<Slow, String>(Slow { wait: 2, value: Some(v + 1) })
    });
    assert_eq!(c.poll(&Tokens::all()), None);
    let mut tail = match c.tailcall() {
        Some(tail) => tail,
        None => panic!("the second phase is the whole of what is left"),
    };
    assert_eq!(tail.poll_tail(&Tokens::all()), None);
    assert_eq!(tail.poll_tail(&Tokens::all()), Some(Ok(5)));
    assert_eq!(tail.poll_tail(&Tokens::all()), reuse());
    assert_eq!(c.poll(&Tokens::all()), reuse());
}

#[test]
fn collapsing_replaces_a_chain_by_its_second_phase() {
    let first: Done<i32, &'static str> = done(Ok(4));
    let mut chained = and_then::new(first, |v: i32| {
        Ok::<Slow, String>(Slow { wait: 1, value: Some(v * 2) })
    });
    assert_eq!(chained.poll(&Tokens::all()), None);
    let mut wrapped = Collapsed::Start(chained);
    wrapped.collapse();
    assert!(matches!(wrapped, Collapsed::Tail(_)));
    wrapped.collapse();
    assert!(matches!(wrapped, Collapsed::Tail(_)));
    assert_eq!(wrapped.poll(&Tokens::all()), Some(Ok(8)));
    assert_eq!(wrapped.poll(&Tokens::all()), reuse());
}

#[test]
fn collapsing_leaves_a_computation_without_replacement_as_it_is() {
    let mut wrapped: Collapsed<i32, &'static str, Slow> =
        Collapsed::Start(Slow { wait: 1, value: Some(3) });
    wrapped.collapse();
    assert!(matches!(wrapped, Collapsed::Start(_)));
    assert_eq!(wrapped.poll(&Tokens::all()), None);
    assert_eq!(wrapped.poll(&Tokens::all()), Some(Ok(3)));
}

#[test]
fn join_and_map_err_never_replace_themselves() {
    let mut j = join::new(Slow { wait: 1, value: Some(1) }, Slow { wait: 0, value: Some(2) });
    assert!(j.tailcall().is_none());
    assert_eq!(j.poll(&Tokens::all()), None);
    assert!(j.tailcall().is_none());
    assert_eq!(j.poll(&Tokens::all()), Some(Ok((1, 2))));

    let mut m = map_err::new(Slow { wait: 1, value: Some(1) }, |e: &'static str| {
        Ok::<usize, String>(e.len())
    });
    assert!(m.tailcall().is_none());
    assert_eq!(m.poll(&Tokens::all()), None);
    assert_eq!(m.poll(&Tokens::all()), Some(Ok(1)));
}

#[test]
fn a_chain_decided_without_second_phase_ends() {
    let mut chain: Chain<i32, i32, &'static str, Slow, Slow, u8> =
        Chain::new(Slow { wait: 0, value: Some(6) }, 9u8);
    let r = chain.poll(&Tokens::all(), |result: PollResult<i32, &'static str>, data: u8| {
        result.map(|v| Ok::<i32, Slow>(v + i32::from(data)))
    });
    assert_eq!(r, Some(Ok(15)));
    assert!(matches!(chain, Chain::Done));
    let again = chain.poll(&Tokens::all(), |result: PollResult<i32, &'static str>, _data: u8| {
        result.map(Ok::<i32, Slow>)
    });
    assert_eq!(again, reuse());
}

#[test]
fn recover_keeps_values_and_marks_unwinding() {
    let kept: PollResult<i32, ()> = recover(|x: i32| Ok::<i32, String>(x + 1), 1);
    assert_eq!(kept, Ok(2));
    let lost: PollResult<i32, ()> = recover(|_x: i32| Err::<i32, String>(String::from("oops")), 1);
    assert_eq!(lost, Err(PollError::Panicked(Panic::Unwound(String::from("oops")))));
}

#[test]
fn an_emptied_slot_is_a_reuse() {
    let full: PollResult<i32, ()> = opt2poll(Some(3));
    assert_eq!(full, Ok(3));
    let empty: PollResult<i32, ()> = opt2poll(None);
    assert_eq!(empty, Err(PollError::Panicked(Panic::Reused)));
    assert_eq!(reused::<()>(), PollError::Panicked(Panic::Reused));
}
