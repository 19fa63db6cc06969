//! Backoff strategies: stateful decision objects that, on each query, either
//! yield the delay to wait before the next attempt or signal that no more
//! attempts should be made.

use crate::delay::{spec_min, Delay};
use vstd::prelude::*;

pub mod constant;
pub mod exponential;
pub mod linear;
pub mod max_attempts;
pub mod max_delay;
pub mod sequence;

pub use self::constant::Constant;
pub use self::exponential::Exponential;
pub use self::linear::Linear;
pub use self::max_attempts::MaxAttempts;
pub use self::max_delay::MaxDelay;
pub use self::sequence::Sequence;

verus! {

/// A backoff strategy.
///
/// Each strategy is modelled by the sequence of answers it will give to its
/// upcoming queries: `upcoming(n)` is the answer the strategy would give to
/// the `n`-th query from now, counted from zero. `Some(d)` means "wait `d`,
/// then try again"; `None` means "stop retrying". Querying the strategy
/// consumes the head of that sequence.
pub trait Backoff: Sized {
    /// The answer this strategy will give to the `n`-th upcoming query.
    spec fn upcoming(&self, n: nat) -> Option<Delay>;

    /// Once a strategy reports stop, it reports stop on every later query:
    /// no strategy may revive.
    proof fn upcoming_terminal(&self, n: nat, m: nat)
        requires
            self.upcoming(n) is None,
            n <= m,
        ensures
            self.upcoming(m) is None,
    ;

    /// Answers the current query and advances the strategy: the answer is
    /// the head of the modelled sequence, and the strategy left behind
    /// models the tail.
    fn next_delay(&mut self) -> (r: Option<Delay>)
        ensures
            r == old(self).upcoming(0),
            forall|n: nat| (#[trigger] final(self).upcoming(n)) == old(self).upcoming(n + 1),
    ;

}

/// Combinator methods available on every backoff strategy.
pub trait Builder: Backoff {
    /// Caps this strategy at `max_attempts` total attempts: the capped
    /// strategy yields at most `max_attempts - 1` delays — never a stop
    /// among them where this strategy yields none — and then reports stop
    /// forever, whatever this strategy would have said.
    fn with_max_attempts(self, max_attempts: u32) -> (r: MaxAttempts<Self>)
        ensures
            forall|n: nat|
                (#[trigger] r.upcoming(n)) == if n + 2 <= max_attempts {
                    self.upcoming(n)
                } else {
                    None::<Delay>
                },
    {
        MaxAttempts::new(max_attempts, self)
    }

    /// Clamps every delay this strategy yields to at most `max_delay`; the
    /// clamped strategy never yields a delay above the ceiling and passes a
    /// stop through unchanged.
    fn with_max_delay(self, max_delay: Delay) -> (r: MaxDelay<Self>)
        ensures
            forall|n: nat|
                (#[trigger] r.upcoming(n)) == match self.upcoming(n) {
                    Some(d) => Some(spec_min(d, max_delay)),
                    None => None::<Delay>,
                },
            forall|n: nat|
                (#[trigger] r.upcoming(n)) matches Some(d) ==> d.nanos <= max_delay.nanos,
            forall|n: nat| (#[trigger] r.upcoming(n)) is None <==> self.upcoming(n) is None,
    {
        MaxDelay::new(max_delay, self)
    }
}

impl<B: Backoff> Builder for B {
}

/// A strategy that yields `delay` before every retry and never stops.
pub fn constant(delay: Delay) -> (r: Constant)
    ensures
        forall|n: nat| (#[trigger] r.upcoming(n)) == Some(delay),
{
    Constant::new(delay)
}

/// A strategy whose `n`-th query yields `initial * multiplier^n`, each
/// multiplication saturating at the largest representable delay.
pub fn exponential(initial: Delay, multiplier: u32) -> (r: Exponential)
    ensures
        forall|n: nat|
            (#[trigger] r.upcoming(n)) == Some(
                self::exponential::exponential_delay(initial, multiplier, n),
            ),
{
    Exponential::new(initial, multiplier)
}

/// A strategy that yields the elements of `delays` in order and stops for
/// good once they run out.
pub fn iterator(delays: Vec<Delay>) -> (r: Sequence)
    ensures
        forall|n: nat|
            (#[trigger] r.upcoming(n)) == if n < delays@.len() {
                Some(delays@[n as int])
            } else {
                None::<Delay>
            },
{
    Sequence::new(delays)
}

/// A strategy whose `n`-th query yields `initial + n * increment`,
/// saturating at the largest representable delay.
pub fn linear(initial: Delay, increment: Delay) -> (r: Linear)
    ensures
        forall|n: nat|
            (#[trigger] r.upcoming(n)) == Some(
                self::linear::linear_delay(initial, increment, n),
            ),
{
    Linear::new(initial, increment)
}

/// Clamping the delay and then capping the attempt count restricts the two
/// dimensions independently and simultaneously: before the attempt cap the
/// composed strategy answers as the inner one does with each delay clamped
/// to the ceiling, past the cap it reports stop, and no delay it ever
/// yields exceeds the ceiling.
pub proof fn lemma_composed_caps<B: Backoff>(
    inner: B,
    clamped: MaxDelay<B>,
    composed: MaxAttempts<MaxDelay<B>>,
    max_delay: Delay,
    max_attempts: u32,
    n: nat,
)
    requires
        forall|i: nat|
            (#[trigger] clamped.upcoming(i)) == match inner.upcoming(i) {
                Some(d) => Some(spec_min(d, max_delay)),
                None => None::<Delay>,
            },
        forall|i: nat|
            (#[trigger] composed.upcoming(i)) == if i + 2 <= max_attempts {
                clamped.upcoming(i)
            } else {
                None::<Delay>
            },
    ensures
        n + 2 <= max_attempts ==> composed.upcoming(n) == match inner.upcoming(n) {
            Some(d) => Some(spec_min(d, max_delay)),
            None => None::<Delay>,
        },
        n + 2 > max_attempts ==> composed.upcoming(n) is None,
        composed.upcoming(n) matches Some(d) ==> d.nanos <= max_delay.nanos,
{
}

} // verus!

