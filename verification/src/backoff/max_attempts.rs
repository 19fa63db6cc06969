//! A combinator that caps the total number of attempts an inner strategy
//! may provoke.

use crate::backoff::Backoff;
use crate::delay::Delay;
use vstd::prelude::*;

verus! {

/// A strategy that forwards to an inner strategy while a budget of
/// attempts remains, then reports stop forever.
///
/// The budget counts total attempts, the unconditional first one among
/// them, not retries: a cap of `k` admits at most `k - 1` delays, so a cap
/// of zero or one means the operation runs once and is never retried.
#[derive(Debug)]
pub struct MaxAttempts<B> {
    attempts_remaining: u32,
    backoff: B,
}

impl<B: Backoff> MaxAttempts<B> {
    /// Caps `backoff` at `max_attempts` total attempts: the `n`-th query
    /// forwards to the inner strategy while `n + 2 <= max_attempts`, and
    /// reports stop on every query past the cap.
    pub fn new(max_attempts: u32, backoff: B) -> (r: Self)
        ensures
            forall|n: nat|
                (#[trigger] r.upcoming(n)) == if n + 2 <= max_attempts {
                    backoff.upcoming(n)
                } else {
                    None::<Delay>
                },
    {
        Self { attempts_remaining: max_attempts, backoff }
    }
}

impl<B: Backoff> Backoff for MaxAttempts<B> {
    closed spec fn upcoming(&self, n: nat) -> Option<Delay> {
        if n + 2 <= self.attempts_remaining {
            self.backoff.upcoming(n)
        } else {
            None
        }
    }

    proof fn upcoming_terminal(&self, n: nat, m: nat) {
        if m + 2 <= self.attempts_remaining {
            self.backoff.upcoming_terminal(n, m);
        }
    }

    fn next_delay(&mut self) -> (r: Option<Delay>) {
        if self.attempts_remaining <= 1 {
            None
        } else {
            self.attempts_remaining = self.attempts_remaining - 1;
            self.backoff.next_delay()
        }
    }
}

} // verus!
