//! The blocking retry driver: one retry loop that occupies its caller for
//! every wait.

use crate::backoff::Backoff;
use crate::delay::Delay;
use crate::driver::{sat_u32, Operation, Session, Step};
use crate::error::Error;
use vstd::prelude::*;

verus! {

/// The wait primitive the blocking driver is handed: a capability that
/// pauses the calling thread for a delay. The caller supplies it; nothing
/// is assumed about how the pause is performed.
pub trait Sleep {
    /// Pauses the caller for `delay`.
    fn sleep(&mut self, delay: Delay);
}

/// A strategy that stops somewhere stops somewhere for a first time: there
/// is a stop point below which every query yields a delay.
proof fn lemma_least_stop<B: Backoff>(b: B, n: nat)
    requires
        b.upcoming(n) is None,
    ensures
        exists|k: nat|
            (#[trigger] b.upcoming(k)) is None && (forall|j: nat|
                j < k ==> (#[trigger] b.upcoming(j)) is Some),
    decreases n,
{
    if exists|j: nat| j < n && (#[trigger] b.upcoming(j)) is None {
        let j = choose|j: nat| j < n && (#[trigger] b.upcoming(j)) is None;
        lemma_least_stop(b, j);
    } else {
        assert(b.upcoming(n) is None && (forall|j: nat|
            j < n ==> (#[trigger] b.upcoming(j)) is Some));
    }
}

/// Invokes `operation` until it succeeds or `backoff` reports stop,
/// pausing the caller through `sleeper` for each granted delay.
///
/// The operation runs at least once, unconditionally. A success is
/// returned at once, with no further wait. Once the strategy reports stop
/// the driver gives up at once — no wait follows the last failure — and
/// the error carries the number of invocations made: one more than the
/// number of delays the strategy granted, the count saturating at
/// `u32::MAX`.
///
/// The strategy must stop eventually — cap it with `with_max_attempts` or
/// hand a finite sequence — so that the loop provably cannot run forever
/// against an operation that never succeeds.
pub fn retry<B: Backoff, S: Sleep, Op: Operation<T, E>, T, E>(
    backoff: B,
    sleeper: &mut S,
    operation: &mut Op,
) -> (r: Result<T, Error<E>>)
    requires
        exists|n: nat| (#[trigger] backoff.upcoming(n)) is None,
    ensures
        r matches Err(error) ==> exists|n: nat|
            (#[trigger] backoff.upcoming(n)) is None && (forall|j: nat|
                j < n ==> (#[trigger] backoff.upcoming(j)) is Some) && error.spec_tries()
                == sat_u32(n + 1),
{
    let ghost start = backoff;
    let mut session = Session::new(backoff);
    proof {
        let n0 = choose|n: nat| (#[trigger] start.upcoming(n)) is None;
        lemma_least_stop(start, n0);
    }
    let ghost stop: nat = choose|k: nat|
        (#[trigger] start.upcoming(k)) is None && (forall|j: nat|
            j < k ==> (#[trigger] start.upcoming(j)) is Some);
    let ghost mut consumed: nat = 0;
    loop
        invariant
            start == backoff,
            consumed <= stop,
            session.spec_tries() == sat_u32(consumed),
            forall|n: nat| (#[trigger] session.upcoming(n)) == start.upcoming(n + consumed),
            start.upcoming(stop) is None,
            forall|j: nat| j < stop ==> (#[trigger] start.upcoming(j)) is Some,
        decreases stop - consumed,
    {
        let outcome = operation.attempt();
        match session.next_action(outcome) {
            Step::Done(value) => {
                return Ok(value);
            },
            Step::Sleep(delay) => {
                sleeper.sleep(delay);
                proof {
                    consumed = consumed + 1;
                }
            },
            Step::GiveUp(error) => {
                proof {
                    assert(consumed == stop);
                    assert((#[trigger] backoff.upcoming(stop)) is None && (forall|j: nat|
                        j < stop ==> (#[trigger] backoff.upcoming(j)) is Some)
                        && error.spec_tries() == sat_u32(stop + 1));
                }
                return Err(error);
            },
        }
    }
}

} // verus!
