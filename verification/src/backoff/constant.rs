//! The constant backoff strategy.

use crate::backoff::Backoff;
use crate::delay::Delay;
use vstd::prelude::*;

verus! {

/// A strategy that yields the same delay on every query and never stops.
#[derive(Debug)]
pub struct Constant {
    delay: Delay,
}

impl Constant {
    /// A strategy that yields `delay` on every query.
    pub fn new(delay: Delay) -> (r: Self)
        ensures
            forall|n: nat| (#[trigger] r.upcoming(n)) == Some(delay),
    {
        Self { delay }
    }
}

impl Backoff for Constant {
    closed spec fn upcoming(&self, n: nat) -> Option<Delay> {
        Some(self.delay)
    }

    proof fn upcoming_terminal(&self, n: nat, m: nat) {
    }

    fn next_delay(&mut self) -> (r: Option<Delay>) {
        Some(self.delay)
    }
}

} // verus!
