//! A backoff strategy driven by a caller-supplied, finite sequence of
//! delays.

use crate::backoff::Backoff;
use crate::delay::Delay;
use vstd::prelude::*;

verus! {

/// A strategy that yields the elements of a caller-supplied sequence of
/// delays in order and stops for good once the sequence is exhausted.
#[derive(Debug)]
pub struct Sequence {
    delays: Vec<Delay>,
    cursor: usize,
}

impl Sequence {
    /// A strategy whose `n`-th query yields the `n`-th element of `delays`,
    /// and stop once they run out.
    pub fn new(delays: Vec<Delay>) -> (r: Self)
        ensures
            forall|n: nat|
                (#[trigger] r.upcoming(n)) == if n < delays@.len() {
                    Some(delays@[n as int])
                } else {
                    None::<Delay>
                },
    {
        Self { delays, cursor: 0 }
    }
}

impl Backoff for Sequence {
    closed spec fn upcoming(&self, n: nat) -> Option<Delay> {
        if self.cursor + n < self.delays@.len() {
            Some(self.delays@[self.cursor + n])
        } else {
            None
        }
    }

    proof fn upcoming_terminal(&self, n: nat, m: nat) {
    }

    fn next_delay(&mut self) -> (r: Option<Delay>) {
        if self.cursor < self.delays.len() {
            let d = self.delays[self.cursor];
            self.cursor = self.cursor + 1;
            Some(d)
        } else {
            None
        }
    }
}

} // verus!
