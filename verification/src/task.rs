//! The notification channel: readiness tokens and wake handles.

use std::sync::Arc;
use vstd::prelude::*;

verus! {

/// A set of readiness tokens: what became ready since the last poll.
///
/// The set is either every token, or the finite list that was put in.
pub struct Tokens {
    every: bool,
    list: Vec<usize>,
}

impl View for Tokens {
    type V = Set<usize>;

    closed spec fn view(&self) -> Set<usize> {
        Set::new(|t: usize| self.every || self.list@.contains(t))
    }
}

impl Tokens {
    /// The set holds every token.
    pub open spec fn is_all(&self) -> bool {
        forall|t: usize| #[trigger] self@.contains(t)
    }

    /// The set that holds every token.
    pub fn all() -> (r: Tokens)
        ensures
            r.is_all(),
    {
        Tokens { every: true, list: Vec::new() }
    }

    /// The set that holds no token.
    pub fn empty() -> (r: Tokens)
        ensures
            r@ == Set::<usize>::empty(),
    {
        let r = Tokens { every: false, list: Vec::new() };
        assert(r@ =~= Set::<usize>::empty());
        r
    }

    /// The set that holds `token` and nothing else.
    pub fn from_usize(token: usize) -> (r: Tokens)
        ensures
            r@ == Set::<usize>::empty().insert(token),
    {
        let mut list: Vec<usize> = Vec::new();
        list.push(token);
        let r = Tokens { every: false, list };
        assert(r.list@ =~= seq![token]);
        assert forall|t: usize| r@.contains(t) <==> t == token by {
            if t == token {
                assert(r.list@[0] == t);
            }
        }
        assert(r@ =~= Set::<usize>::empty().insert(token));
        r
    }

    /// Whether `token` is in the set.
    pub fn may_contain(&self, token: usize) -> (b: bool)
        ensures
            b == self@.contains(token),
    {
        if self.every {
            return true;
        }
        let mut i: usize = 0;
        while i < self.list.len()
            invariant
                i <= self.list.len(),
                forall|j: int| 0 <= j < i ==> self.list@[j] != token,
            decreases self.list.len() - i,
        {
            if self.list[i] == token {
                return true;
            }
            i += 1;
        }
        false
    }
}

/// The target of a notification: whoever has to poll again once a pending
/// computation can make progress.
pub trait Wake: Send + Sync {
    /// Says that the computations waiting on `tokens` can be polled again.
    fn wake(&self, tokens: &Tokens);
}

/// A shared handle to a [`Wake`] target. Cloning it shares the target; the last
/// holder to let go releases it.
pub struct Waker {
    target: Arc<Box<dyn Wake>>,
}

/// `Arc::clone`: another pointer to the same allocation. The allocation is not
/// copied, so what the new pointer points to is what the given one points to.
#[verifier::external_body]
fn share(target: &Arc<Box<dyn Wake>>) -> (shared: Arc<Box<dyn Wake>>)
    ensures
        shared == *target,
{
    Arc::clone(target)
}

impl Waker {
    /// A handle to `target`.
    pub fn new<W: Wake + 'static>(target: W) -> Waker {
        let boxed: Box<dyn Wake> = Box::new(target);
        Waker { target: Arc::new(boxed) }
    }

    /// Notifies the target.
    pub fn wake(&self, tokens: &Tokens) {
        self.target.wake(tokens)
    }
}

impl Clone for Waker {
    /// Another handle to the same target.
    fn clone(&self) -> (shared: Waker)
        ensures
            shared == *self,
    {
        Waker { target: share(&self.target) }
    }
}

/// What a poll of a sequence is given: the tokens that became ready and the
/// handle to notify.
pub struct Context {
    tokens: Tokens,
    waker: Waker,
}

impl Context {
    /// A context made of `tokens` and `waker`.
    pub fn new(tokens: Tokens, waker: Waker) -> (cx: Context)
        ensures
            cx.tokens_spec() == tokens,
            cx.waker_spec() == waker,
    {
        Context { tokens, waker }
    }

    /// The tokens of the context.
    pub closed spec fn tokens_spec(&self) -> Tokens {
        self.tokens
    }

    /// The tokens that became ready.
    pub fn tokens(&self) -> (t: &Tokens)
        ensures
            *t == self.tokens_spec(),
    {
        &self.tokens
    }

    /// The wake handle of the context.
    pub closed spec fn waker_spec(&self) -> Waker {
        self.waker
    }

    /// The handle to notify when polling again can make progress.
    pub fn waker(&self) -> (w: &Waker)
        ensures
            *w == self.waker_spec(),
    {
        &self.waker
    }
}

} // verus!
