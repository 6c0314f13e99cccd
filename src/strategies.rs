use crate::duration::{Duration, MAX_NANOS};
use vstd::prelude::*;

pub mod jitter;
pub mod stop;
pub mod wait;

verus! {

/// How long to wait after a failed attempt.
///
/// A wait strategy is a pure function of the attempt index: `wait_of` is the
/// wait in nanoseconds after failed attempt `attempt` (counted from zero), and
/// `wait_duration` computes exactly that.
pub trait WaitStrategy: Sized {
    spec fn wait_of(&self, attempt: nat) -> nat;

    fn wait_duration(&self, attempt: usize) -> (r: Duration)
        ensures
            r@ == self.wait_of(attempt as nat),
    ;
}

/// Combinators over wait strategies, available on every one of them.
pub trait WaitStrategyExt: WaitStrategy {
    /// The strategy that waits for the sum of the waits of `self` and `other`.
    fn add<B: WaitStrategy>(self, other: B) -> (r: WaitAdd<Self, B>)
        ensures
            r.left == self,
            r.right == other,
    ;
}

impl<W: WaitStrategy> WaitStrategyExt for W {
    fn add<B: WaitStrategy>(self, other: B) -> (r: WaitAdd<Self, B>) {
        WaitAdd { left: self, right: other }
    }
}

/// When to give up retrying.
///
/// A stop strategy is a pure predicate over the index of the attempt that just
/// failed and the time elapsed since the first attempt began, in nanoseconds.
pub trait StopStrategy: Sized {
    spec fn stops(&self, attempt: nat, elapsed: nat) -> bool;

    fn should_stop(&self, attempt: usize, elapsed: Duration) -> (r: bool)
        ensures
            r == self.stops(attempt as nat, elapsed@),
    ;
}

/// Combinators over stop strategies, available on every one of them.
pub trait StopStrategyExt: StopStrategy {
    /// The strategy that stops as soon as `self` or `other` would.
    fn or<B: StopStrategy>(self, other: B) -> (r: StopOr<Self, B>)
        ensures
            r.left == self,
            r.right == other,
    ;
}

impl<S: StopStrategy> StopStrategyExt for S {
    fn or<B: StopStrategy>(self, other: B) -> (r: StopOr<Self, B>) {
        StopOr { left: self, right: other }
    }
}

/// How a computed wait is randomised before sleeping.
///
/// `admits(wait, jittered)` holds when `jittered` nanoseconds is a possible
/// outcome of applying the strategy to a wait of `wait` nanoseconds; `apply`
/// always returns such an outcome.
pub trait JitterStrategy: Sized {
    spec fn admits(&self, wait: nat, jittered: nat) -> bool;

    fn apply(&self, wait_duration: Duration) -> (r: Duration)
        ensures
            self.admits(wait_duration@, r@),
    ;
}

/// The sum of two nanosecond counts, clamped to the representable range.
pub open spec fn clamped_sum(a: nat, b: nat) -> nat {
    if a + b <= MAX_NANOS {
        a + b
    } else {
        MAX_NANOS as nat
    }
}

/// Waits for the sum of two waits (clamped to the longest representable span).
pub struct WaitAdd<L, R> {
    pub left: L,
    pub right: R,
}

impl<L: WaitStrategy, R: WaitStrategy> WaitStrategy for WaitAdd<L, R> {
    open spec fn wait_of(&self, attempt: nat) -> nat {
        clamped_sum(self.left.wait_of(attempt), self.right.wait_of(attempt))
    }

    fn wait_duration(&self, attempt: usize) -> (r: Duration) {
        let l = self.left.wait_duration(attempt);
        let r = self.right.wait_duration(attempt);
        l.saturating_add(r)
    }
}

/// Stops as soon as either of two strategies stops.
pub struct StopOr<L, R> {
    pub left: L,
    pub right: R,
}

impl<L: StopStrategy, R: StopStrategy> StopStrategy for StopOr<L, R> {
    open spec fn stops(&self, attempt: nat, elapsed: nat) -> bool {
        self.left.stops(attempt, elapsed) || self.right.stops(attempt, elapsed)
    }

    fn should_stop(&self, attempt: usize, elapsed: Duration) -> (r: bool) {
        let l = self.left.should_stop(attempt, elapsed);
        let r = self.right.should_stop(attempt, elapsed);
        l || r
    }
}

/// Combining two stop strategies with `or` does not depend on their order.
pub proof fn lemma_or_commutative<A: StopStrategy, B: StopStrategy>(
    a: A,
    b: B,
    attempt: nat,
    elapsed: nat,
)
    ensures
        (StopOr { left: a, right: b }).stops(attempt, elapsed) == (StopOr {
            left: b,
            right: a,
        }).stops(attempt, elapsed),
{
}

/// Whenever one operand of `or` stops, the combination stops too, whatever
/// the other operand is.
pub proof fn lemma_or_monotone<A: StopStrategy, B: StopStrategy>(
    a: A,
    b: B,
    attempt: nat,
    elapsed: nat,
)
    requires
        a.stops(attempt, elapsed),
    ensures
        (StopOr { left: a, right: b }).stops(attempt, elapsed),
        (StopOr { left: b, right: a }).stops(attempt, elapsed),
{
}

} // verus!
