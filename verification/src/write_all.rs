//! Writing a whole buffer through a resource that takes a part of it at a time.
//!
//! The resource itself is driven by the caller. This module decides, from what
//! each write reported, what is left to write and when the work is over.

use vstd::prelude::*;
use vstd::slice::slice_subrange;

verus! {

/// What one write attempt reported.
#[derive(Debug)]
pub enum WriteEvent<X> {
    /// The resource took this many bytes from the front of what was offered.
    Wrote(usize),
    /// The resource cannot take anything now.
    Pending,
    /// The resource failed.
    Failed(X),
}

/// Why the buffer was not written in full.
#[derive(Debug, PartialEq, Eq)]
pub enum WriteError<X> {
    /// The resource took nothing of a buffer that still held bytes.
    WriteZero,
    /// The work had ended before: its result was handed out already.
    Reused,
    /// The resource failed.
    Other(X),
}

/// What the caller does next.
#[derive(Debug, PartialEq, Eq)]
pub enum Progress<X> {
    /// Offer the bytes that remain to the resource and report what it did.
    Write,
    /// Wait to be woken, then offer the same bytes again.
    Pending,
    /// The work is over, with this result.
    Done(Result<(), WriteError<X>>),
}

/// Future for the `write_all` method: the bytes of a buffer that have not been
/// written yet, and whether the work has ended.
#[derive(Debug)]
pub struct WriteAll<'a> {
    buf: &'a [u8],
    ended: bool,
}

impl<'a> View for WriteAll<'a> {
    type V = Seq<u8>;

    /// The bytes that remain to be written.
    closed spec fn view(&self) -> Seq<u8> {
        self.buf@
    }
}

/// What a poll starts with: a reuse error when the work has ended, nothing to do
/// for an empty buffer, a write otherwise.
pub open spec fn first_step<X>(remaining: Seq<u8>, ended: bool) -> Progress<X> {
    if ended {
        Progress::Done(Err(WriteError::Reused))
    } else if remaining.len() == 0 {
        Progress::Done(Ok(()))
    } else {
        Progress::Write
    }
}

/// What follows a write attempt on `remaining` bytes that reported `event`.
///
/// A resource that takes nothing while bytes remain will never finish: that is
/// the write-zero error. Taking the last byte ends the work; taking fewer asks
/// for another write.
pub open spec fn next_step<X>(remaining: Seq<u8>, event: WriteEvent<X>) -> Progress<X> {
    match event {
        WriteEvent::Pending => Progress::Pending,
        WriteEvent::Failed(x) => Progress::Done(Err(WriteError::Other(x))),
        WriteEvent::Wrote(n) => if n == 0 && remaining.len() > 0 {
            Progress::Done(Err(WriteError::WriteZero))
        } else if n == remaining.len() {
            Progress::Done(Ok(()))
        } else {
            Progress::Write
        },
    }
}

/// The bytes that remain after a write attempt on `remaining` bytes that
/// reported `event`: all but the first `n` after `n` were taken, the same
/// otherwise.
pub open spec fn left_over<X>(remaining: Seq<u8>, event: WriteEvent<X>) -> Seq<u8> {
    match event {
        WriteEvent::Wrote(n) => remaining.subrange(n as int, remaining.len() as int),
        _ => remaining,
    }
}

impl<'a> WriteAll<'a> {
    /// The work has ended: its result, success or error, was handed out.
    pub closed spec fn ended(&self) -> bool {
        self.ended
    }

    /// Starts with all of `buf` to be written.
    pub fn new(buf: &'a [u8]) -> (w: Self)
        ensures
            w@ == buf@,
            !w.ended(),
    {
        WriteAll { buf, ended: false }
    }

    /// The bytes to offer to the resource next.
    pub fn remaining(&self) -> (rest: &'a [u8])
        ensures
            rest@ == self@,
    {
        self.buf
    }

    /// Starts a poll. Work that has ended answers with the reuse error, whatever
    /// its result was, and asks for no further write. Otherwise an empty buffer
    /// ends the work with success, and anything else asks for a write.
    ///
    /// The work is ended afterwards exactly when the answer is `Done`.
    pub fn begin<X>(&mut self) -> (p: Progress<X>)
        ensures
            p == first_step::<X>(old(self)@, old(self).ended()),
            final(self)@ == old(self)@,
            final(self).ended() <==> p is Done,
    {
        if self.ended {
            Progress::Done(Err(WriteError::Reused))
        } else if self.buf.len() == 0 {
            self.ended = true;
            Progress::Done(Ok(()))
        } else {
            Progress::Write
        }
    }

    /// Takes in what a write attempt on [`WriteAll::remaining`] reported.
    ///
    /// The cursor moves by exactly the number of bytes reported. Every answer
    /// that asks for another write leaves fewer bytes than before, so the work
    /// ends after at most as many writes as the buffer has bytes. Work that had
    /// ended takes nothing in and answers with the reuse error.
    ///
    /// The work is ended afterwards exactly when the answer is `Done`.
    pub fn advance<X>(&mut self, event: WriteEvent<X>) -> (p: Progress<X>)
        requires
            !old(self).ended() ==> (event matches WriteEvent::Wrote(n) ==> n <= old(self)@.len()),
        ensures
            old(self).ended() ==> p == Progress::<X>::Done(Err(WriteError::Reused)) && final(self)@
                == old(self)@,
            !old(self).ended() ==> p == next_step(old(self)@, event) && final(self)@ == left_over(
                old(self)@,
                event,
            ),
            final(self).ended() <==> p is Done,
            p is Write ==> 0 < final(self)@.len() < old(self)@.len(),
    {
        if self.ended {
            return Progress::Done(Err(WriteError::Reused));
        }
        match event {
            WriteEvent::Pending => Progress::Pending,
            WriteEvent::Failed(x) => {
                self.ended = true;
                Progress::Done(Err(WriteError::Other(x)))
            },
            WriteEvent::Wrote(n) => {
                let len = self.buf.len();
                let rest = slice_subrange(self.buf, n, len);
                self.buf = rest;
                if n == 0 && len > 0 {
                    self.ended = true;
                    Progress::Done(Err(WriteError::WriteZero))
                } else if n == len {
                    self.ended = true;
                    Progress::Done(Ok(()))
                } else {
                    Progress::Write
                }
            },
        }
    }
}

} // verus!
