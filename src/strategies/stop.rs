use crate::duration::Duration;
use crate::strategies::StopStrategy;
use vstd::prelude::*;

verus! {

/// Never stops: retries until the operation succeeds.
pub struct StopNever;

impl StopStrategy for StopNever {
    open spec fn stops(&self, attempt: nat, elapsed: nat) -> bool {
        false
    }

    fn should_stop(&self, attempt: usize, elapsed: Duration) -> (r: bool) {
        false
    }
}

/// Stops once the index of the failed attempt reaches the given count.
pub type StopAfterAttempts = usize;

impl StopStrategy for StopAfterAttempts {
    open spec fn stops(&self, attempt: nat, elapsed: nat) -> bool {
        attempt >= *self
    }

    fn should_stop(&self, attempt: usize, elapsed: Duration) -> (r: bool) {
        attempt >= *self
    }
}

/// Stops once the elapsed time is strictly longer than the given span.
pub type StopAfterDelay = Duration;

impl StopStrategy for StopAfterDelay {
    open spec fn stops(&self, attempt: nat, elapsed: nat) -> bool {
        elapsed > self@
    }

    fn should_stop(&self, attempt: usize, elapsed: Duration) -> (r: bool) {
        elapsed.as_nanos() > self.as_nanos()
    }
}

/// A limit of `n` attempts keeps retrying for every attempt index below `n`
/// and stops for every index at or above it, whatever the elapsed time.
pub proof fn lemma_after_attempts(n: StopAfterAttempts, attempt: nat, elapsed: nat)
    ensures
        attempt < n ==> !n.stops(attempt, elapsed),
        attempt >= n ==> n.stops(attempt, elapsed),
{
}

/// A limit of `d` on the elapsed time keeps retrying while the elapsed time is
/// at most `d` and stops once it is longer, whatever the attempt index.
pub proof fn lemma_after_delay(d: StopAfterDelay, attempt: nat, elapsed: nat)
    ensures
        elapsed <= d@ ==> !d.stops(attempt, elapsed),
        elapsed > d@ ==> d.stops(attempt, elapsed),
{
}

} // verus!
