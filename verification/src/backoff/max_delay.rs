//! A combinator that clamps the delays an inner strategy yields.

use crate::backoff::Backoff;
use crate::delay::{spec_min, Delay};
use vstd::prelude::*;

verus! {

/// A strategy that forwards an inner strategy's stop-or-continue decision
/// unchanged, but clamps every yielded delay to a fixed ceiling.
#[derive(Debug)]
pub struct MaxDelay<B> {
    max_delay: Delay,
    backoff: B,
}

impl<B: Backoff> MaxDelay<B> {
    /// Clamps every delay `backoff` yields to at most `max_delay`, never
    /// yields a delay above the ceiling, and passes a stop through
    /// unchanged.
    pub fn new(max_delay: Delay, backoff: B) -> (r: Self)
        ensures
            forall|n: nat|
                (#[trigger] r.upcoming(n)) == match backoff.upcoming(n) {
                    Some(d) => Some(spec_min(d, max_delay)),
                    None => None::<Delay>,
                },
            forall|n: nat|
                (#[trigger] r.upcoming(n)) matches Some(d) ==> d.nanos <= max_delay.nanos,
            forall|n: nat| (#[trigger] r.upcoming(n)) is None <==> backoff.upcoming(n) is None,
    {
        Self { max_delay, backoff }
    }
}

impl<B: Backoff> Backoff for MaxDelay<B> {
    closed spec fn upcoming(&self, n: nat) -> Option<Delay> {
        match self.backoff.upcoming(n) {
            Some(d) => Some(spec_min(d, self.max_delay)),
            None => None,
        }
    }

    proof fn upcoming_terminal(&self, n: nat, m: nat) {
        self.backoff.upcoming_terminal(n, m);
    }

    fn next_delay(&mut self) -> (r: Option<Delay>) {
        let ceiling = self.max_delay;
        match self.backoff.next_delay() {
            Some(d) => Some(d.min(ceiling)),
            None => None,
        }
    }
}

} // verus!
