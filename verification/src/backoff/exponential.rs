//! The exponential backoff strategy.

use crate::backoff::Backoff;
use crate::delay::{capped, Delay};
use vstd::arithmetic::power::pow;
use vstd::prelude::*;

verus! {

/// The delay an exponential strategy begun at `first` with the given
/// multiplier yields on its `n`-th query: `first * multiplier^n`
/// nanoseconds, with every multiplication saturating at the largest
/// representable delay.
pub open spec fn exponential_delay(first: Delay, multiplier: u32, n: nat) -> Delay
    decreases n,
{
    if n == 0 {
        first
    } else {
        Delay {
            nanos: capped(
                exponential_delay(first, multiplier, (n - 1) as nat).nanos * multiplier,
            ),
        }
    }
}

/// A strategy that yields delays growing by a fixed multiplier and never
/// stops.
#[derive(Debug)]
pub struct Exponential {
    next: Delay,
    multiplier: u32,
}

impl Exponential {
    /// A strategy whose `n`-th query yields `initial * multiplier^n`, each
    /// multiplication saturating at the largest representable delay.
    pub fn new(initial: Delay, multiplier: u32) -> (r: Self)
        ensures
            forall|n: nat|
                (#[trigger] r.upcoming(n)) == Some(exponential_delay(initial, multiplier, n)),
    {
        Self { next: initial, multiplier }
    }
}

proof fn lemma_exponential_shift(first: Delay, multiplier: u32, n: nat)
    ensures
        exponential_delay(first, multiplier, n + 1) == exponential_delay(
            Delay { nanos: capped(first.nanos * multiplier) },
            multiplier,
            n,
        ),
    decreases n,
{
    let advanced = Delay { nanos: capped(first.nanos * multiplier) };
    if n == 0 {
        assert(exponential_delay(first, multiplier, 0) == first);
        assert(exponential_delay(advanced, multiplier, 0) == advanced);
    } else {
        lemma_exponential_shift(first, multiplier, (n - 1) as nat);
        assert(exponential_delay(first, multiplier, n + 1) == Delay {
            nanos: capped(exponential_delay(first, multiplier, n).nanos * multiplier),
        });
        assert(exponential_delay(advanced, multiplier, n) == Delay {
            nanos: capped(exponential_delay(advanced, multiplier, (n - 1) as nat).nanos
                * multiplier),
        });
    }
}

/// As long as nothing saturates, the recurrence has the familiar closed
/// form: the `n`-th delay of an exponential strategy is exactly
/// `first * multiplier^n` nanoseconds.
pub proof fn lemma_exponential_delay_closed_form(first: Delay, multiplier: u32, n: nat)
    requires
        first.nanos * pow(multiplier as int, n) <= u64::MAX,
    ensures
        exponential_delay(first, multiplier, n).nanos == first.nanos * pow(
            multiplier as int,
            n,
        ),
    decreases n,
{
    reveal(pow);
    let m = multiplier as int;
    if n == 0 {
        assert(pow(m, 0) == 1);
    } else if multiplier == 0 {
        assert(pow(m, n) == m * pow(m, (n - 1) as nat));
        assert(pow(m, n) == 0) by (nonlinear_arith)
            requires
                m == 0,
                pow(m, n) == m * pow(m, (n - 1) as nat),
        ;
        assert(exponential_delay(first, multiplier, n).nanos == capped(
            exponential_delay(first, multiplier, (n - 1) as nat).nanos * 0,
        ));
        assert(first.nanos * pow(m, n) == 0) by (nonlinear_arith)
            requires
                pow(m, n) == 0,
        ;
        assert(exponential_delay(first, multiplier, n).nanos == first.nanos * pow(m, n));
    } else {
        let p = pow(m, (n - 1) as nat);
        assert(pow(m, n) == m * p);
        vstd::arithmetic::power::lemma_pow_positive(m, (n - 1) as nat);
        assert(first.nanos * p <= first.nanos * (m * p)) by (nonlinear_arith)
            requires
                first.nanos >= 0,
                p > 0,
                m >= 1,
        ;
        lemma_exponential_delay_closed_form(first, multiplier, (n - 1) as nat);
        assert((first.nanos * p) * m == first.nanos * (m * p)) by (nonlinear_arith);
    }
}

impl Backoff for Exponential {
    closed spec fn upcoming(&self, n: nat) -> Option<Delay> {
        Some(exponential_delay(self.next, self.multiplier, n))
    }

    proof fn upcoming_terminal(&self, n: nat, m: nat) {
    }

    fn next_delay(&mut self) -> (r: Option<Delay>) {
        let current = self.next;
        self.next = current.saturating_mul(self.multiplier);
        proof {
            assert forall|n: nat|
                (#[trigger] final(self).upcoming(n)) == old(self).upcoming(n + 1) by {
                lemma_exponential_shift(old(self).next, old(self).multiplier, n);
            }
        }
        Some(current)
    }
}

} // verus!
