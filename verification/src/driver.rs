//! The retry decision core, written once and shared by every retry driver.
//!
//! A driver loop — blocking or cooperative — owns a [`Session`], invokes the
//! fallible operation, and feeds each outcome to [`Session::next_action`];
//! the step handed back tells the loop whether to return the success, wait
//! for a delay and try again, or give up with an [`Error`]. Only the loop's
//! wait mechanism varies between drivers; every retry decision is made here.

use crate::backoff::Backoff;
use crate::delay::Delay;
use crate::error::Error;
use vstd::prelude::*;

verus! {

/// A fallible unit of work under retry. The retry drivers invoke it
/// repeatedly; nothing is assumed about which outcomes it produces.
pub trait Operation<T, E> {
    /// Runs the operation once.
    fn attempt(&mut self) -> Result<T, E>;
}

/// What a retry driver must do next, as decided by [`Session::next_action`].
pub enum Step<T, E> {
    /// The operation succeeded: hand its result back, consult nothing
    /// further.
    Done(T),
    /// The operation failed and the strategy granted a delay: wait this
    /// long, then invoke the operation again.
    Sleep(Delay),
    /// The operation failed and the strategy reported stop: hand back this
    /// error, performing no wait.
    GiveUp(Error<E>),
}

/// `n + 1`, saturating at `u32::MAX`.
pub open spec fn sat_inc(n: u32) -> u32 {
    if n < u32::MAX {
        (n + 1) as u32
    } else {
        n
    }
}

/// `n` clamped to the range of a `u32` attempt counter.
pub open spec fn sat_u32(n: nat) -> u32 {
    if n <= u32::MAX {
        n as u32
    } else {
        u32::MAX
    }
}

/// The retry decisions of one retry call: a backoff strategy together with
/// the count of attempts made so far.
///
/// `upcoming(n)` is the strategy's answer to its `n`-th upcoming query and
/// `spec_tries()` the number of failures recorded so far; the counter
/// saturates rather than overflowing.
pub struct Session<B> {
    backoff: B,
    tries: u32,
}

impl<B: Backoff> Session<B> {
    /// The number of failed attempts recorded so far.
    pub closed spec fn spec_tries(&self) -> u32 {
        self.tries
    }

    /// The answer the owned strategy will give to its `n`-th upcoming
    /// query.
    pub closed spec fn upcoming(&self, n: nat) -> Option<Delay> {
        self.backoff.upcoming(n)
    }

    /// A session that has made no attempts yet and owns `backoff`.
    pub fn new(backoff: B) -> (r: Self)
        ensures
            r.spec_tries() == 0,
            forall|n: nat| (#[trigger] r.upcoming(n)) == backoff.upcoming(n),
    {
        Self { backoff, tries: 0 }
    }

    /// Decides what a retry driver must do with the `outcome` of one
    /// invocation of the operation.
    ///
    /// A success is handed through untouched and the session is left as it
    /// was. A failure is recorded — the attempt count grows by one, to
    /// saturation — and the strategy is queried: its head answer either
    /// grants the delay to wait before the next attempt, or turns into an
    /// [`Error`] carrying the attempt count and the failure.
    pub fn next_action<T, E>(&mut self, outcome: Result<T, E>) -> (step: Step<T, E>)
        ensures
            outcome matches Ok(value) ==> step == Step::<T, E>::Done(value) && *final(self)
                == *old(self),
            outcome is Err ==> final(self).spec_tries() == sat_inc(old(self).spec_tries())
                && forall|n: nat|
                    (#[trigger] final(self).upcoming(n)) == old(self).upcoming(n + 1),
            outcome is Err ==> (old(self).upcoming(0) matches Some(d) ==> step == Step::<
                T,
                E,
            >::Sleep(d)),
            outcome matches Err(e) ==> (old(self).upcoming(0) is None ==> (step matches
                Step::GiveUp(error) && error.spec_tries() == final(self).spec_tries()
                && error.spec_source() == e)),
    {
        match outcome {
            Ok(value) => Step::Done(value),
            Err(source) => {
                self.tries = if self.tries < u32::MAX {
                    self.tries + 1
                } else {
                    self.tries
                };
                match self.backoff.next_delay() {
                    Some(delay) => Step::Sleep(delay),
                    None => Step::GiveUp(Error::new(self.tries, source)),
                }
            },
        }
    }
}

} // verus!
