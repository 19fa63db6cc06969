//! The linear backoff strategy.

use crate::backoff::Backoff;
use crate::delay::{capped, Delay};
use vstd::prelude::*;

verus! {

/// The delay a linear strategy begun at `first` with step `increment`
/// yields on its `n`-th query: `first + n * increment` nanoseconds,
/// saturating at the largest representable delay.
pub open spec fn linear_delay(first: Delay, increment: Delay, n: nat) -> Delay {
    Delay { nanos: capped(first.nanos + n * increment.nanos) }
}

/// A strategy that yields delays growing by a fixed increment and never
/// stops.
#[derive(Debug)]
pub struct Linear {
    next: Delay,
    increment: Delay,
}

impl Linear {
    /// A strategy whose `n`-th query yields `initial + n * increment`,
    /// saturating at the largest representable delay.
    pub fn new(initial: Delay, increment: Delay) -> (r: Self)
        ensures
            forall|n: nat| (#[trigger] r.upcoming(n)) == Some(linear_delay(initial, increment, n)),
    {
        Self { next: initial, increment }
    }
}

proof fn lemma_linear_shift(first: Delay, increment: Delay, n: nat)
    ensures
        linear_delay(first, increment, n + 1) == linear_delay(
            Delay { nanos: capped(first.nanos + increment.nanos) },
            increment,
            n,
        ),
{
    assert((n + 1) * increment.nanos == n * increment.nanos + increment.nanos)
        by (nonlinear_arith);
}

impl Backoff for Linear {
    closed spec fn upcoming(&self, n: nat) -> Option<Delay> {
        Some(linear_delay(self.next, self.increment, n))
    }

    proof fn upcoming_terminal(&self, n: nat, m: nat) {
    }

    fn next_delay(&mut self) -> (r: Option<Delay>) {
        let current = self.next;
        self.next = current.saturating_add(self.increment);
        proof {
            assert forall|n: nat|
                (#[trigger] final(self).upcoming(n)) == old(self).upcoming(n + 1) by {
                lemma_linear_shift(old(self).next, old(self).increment, n);
            }
        }
        Some(current)
    }
}

} // verus!
