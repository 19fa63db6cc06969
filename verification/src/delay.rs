//! A saturating, non-negative span of time, used for the waits between
//! retry attempts.

use vstd::prelude::*;

verus! {

/// A non-negative span of time, counted in nanoseconds.
///
/// Arithmetic on a `Delay` saturates at `u64::MAX` nanoseconds rather than
/// wrapping or panicking, so a runaway backoff policy can never crash the
/// retry loop.
#[derive(Clone, Copy, Debug, PartialEq, Eq, Structural)]
pub struct Delay {
    pub nanos: u64,
}

/// Clamps an unbounded quantity of nanoseconds to the range of a `Delay`.
pub open spec fn capped(x: int) -> u64 {
    if x > u64::MAX {
        u64::MAX
    } else if x < 0 {
        0
    } else {
        x as u64
    }
}

/// The shorter of two delays.
pub open spec fn spec_min(a: Delay, b: Delay) -> Delay {
    if a.nanos <= b.nanos {
        a
    } else {
        b
    }
}

impl Delay {
    /// A delay of exactly `nanos` nanoseconds.
    pub fn from_nanos(nanos: u64) -> (r: Delay)
        ensures
            r.nanos == nanos,
    {
        Delay { nanos }
    }

    /// A delay of `millis` milliseconds, saturating at the largest
    /// representable delay.
    pub fn from_millis(millis: u64) -> (r: Delay)
        ensures
            r.nanos == capped(millis * 1_000_000),
    {
        if millis <= u64::MAX / 1_000_000 {
            Delay { nanos: millis * 1_000_000 }
        } else {
            Delay { nanos: u64::MAX }
        }
    }

    /// A delay of `secs` seconds, saturating at the largest representable
    /// delay.
    pub fn from_secs(secs: u64) -> (r: Delay)
        ensures
            r.nanos == capped(secs * 1_000_000_000),
    {
        if secs <= u64::MAX / 1_000_000_000 {
            Delay { nanos: secs * 1_000_000_000 }
        } else {
            Delay { nanos: u64::MAX }
        }
    }

    /// The sum of two delays, saturating at the largest representable delay.
    pub fn saturating_add(self, other: Delay) -> (r: Delay)
        ensures
            r.nanos == capped(self.nanos + other.nanos),
    {
        if self.nanos <= u64::MAX - other.nanos {
            Delay { nanos: self.nanos + other.nanos }
        } else {
            Delay { nanos: u64::MAX }
        }
    }

    /// This delay multiplied by `factor`, saturating at the largest
    /// representable delay.
    pub fn saturating_mul(self, factor: u32) -> (r: Delay)
        ensures
            r.nanos == capped(self.nanos * factor),
    {
        let f = factor as u64;
        if f == 0 {
            Delay { nanos: 0 }
        } else if self.nanos <= u64::MAX / f {
            proof {
                assert(self.nanos * f <= u64::MAX) by (nonlinear_arith)
                    requires
                        f > 0,
                        self.nanos <= u64::MAX as int / f as int,
                ;
            }
            Delay { nanos: self.nanos * f }
        } else {
            proof {
                assert(self.nanos * f > u64::MAX) by (nonlinear_arith)
                    requires
                        f > 0,
                        self.nanos > u64::MAX as int / f as int,
                ;
            }
            Delay { nanos: u64::MAX }
        }
    }

    /// The shorter of `self` and `other`.
    pub fn min(self, other: Delay) -> (r: Delay)
        ensures
            r == spec_min(self, other),
    {
        if self.nanos <= other.nanos {
            self
        } else {
            other
        }
    }
}

} // verus!
