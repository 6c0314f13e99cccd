//! Retrying a fallible operation under three independent policies: when to
//! stop, how long to wait between attempts, and how to randomise that wait.
//!
//! The policies and their combinators are specified and verified here. The
//! decision taken after each attempt is the verified function
//! [`Retry::next_step`]; a caller's loop invokes the operation, measures the
//! elapsed time, asks `next_step` what to do, and sleeps for the pause it
//! returns.

pub mod duration;
pub mod strategies;

pub use duration::Duration;
pub use strategies::{JitterStrategy, StopStrategy, StopStrategyExt, WaitStrategy, WaitStrategyExt};

use strategies::jitter::{FullJitter, NoJitter};
use strategies::stop::StopAfterAttempts;
use strategies::wait::{WaitExponential, WaitFixed};
use vstd::prelude::*;

verus! {

/// A retry engine: one stop strategy, one wait strategy and one jitter
/// strategy.
pub struct Retry<S, W, J> {
    stop: S,
    wait: W,
    jitter: J,
}

/// How one run of the retry loop ended.
#[derive(Clone, Copy, Debug)]
pub struct RetryInfo {
    /// The index of the attempt that ended the loop, counted from zero: the
    /// number of failed attempts before it.
    pub attempts: usize,
    /// The time from the start of the first attempt to the end of the loop.
    pub elapsed: Duration,
}

/// What the retry loop does once an attempt has ended.
#[derive(Clone, Copy, Debug)]
pub enum Step {
    /// Leave the loop with the attempt's result, described by this record.
    Finish(RetryInfo),
    /// Sleep for `pause`, then make attempt number `next_attempt`.
    Retry { pause: Duration, next_attempt: usize },
}

impl Retry<StopAfterAttempts, WaitFixed, NoJitter> {
    /// Waits one second between attempts and gives up after attempt index 3.
    pub fn basic() -> (r: Self)
        ensures
            r.stop_policy() == 3usize,
            r.wait_policy()@ == 1_000_000_000,
            r.jitter_policy() == NoJitter,
    {
        Retry { wait: WaitFixed::from_secs(1), stop: 3usize, jitter: NoJitter }
    }
}

impl Retry<StopAfterAttempts, WaitExponential, NoJitter> {
    /// Waits one second after the first failure, doubling each time, and gives
    /// up after attempt index 3.
    pub fn exponential() -> (r: Self)
        ensures
            r.stop_policy() == 3usize,
            r.wait_policy().base()@ == 1_000_000_000,
            r.wait_policy().multiplier() == 2,
            r.jitter_policy() == NoJitter,
    {
        Retry {
            stop: 3usize,
            wait: WaitExponential::new(Duration::from_secs(1), 2),
            jitter: NoJitter,
        }
    }
}

impl Retry<StopAfterAttempts, WaitExponential, FullJitter> {
    /// As [`Retry::exponential`], with full jitter on every wait.
    pub fn exponential_with_jitter() -> (r: Self)
        ensures
            r.stop_policy() == 3usize,
            r.wait_policy().base()@ == 1_000_000_000,
            r.wait_policy().multiplier() == 2,
            r.jitter_policy() == FullJitter,
    {
        Retry {
            stop: 3usize,
            wait: WaitExponential::new(Duration::from_secs(1), 2),
            jitter: FullJitter,
        }
    }
}

impl<S: StopStrategy, W: WaitStrategy, J: JitterStrategy> Retry<S, W, J> {
    /// The stop strategy.
    pub closed spec fn stop_policy(&self) -> S {
        self.stop
    }

    /// The wait strategy.
    pub closed spec fn wait_policy(&self) -> W {
        self.wait
    }

    /// The jitter strategy.
    pub closed spec fn jitter_policy(&self) -> J {
        self.jitter
    }

    /// An engine with the given strategies.
    pub fn new(stop: S, wait: W, jitter: J) -> (r: Self)
        ensures
            r.stop_policy() == stop,
            r.wait_policy() == wait,
            r.jitter_policy() == jitter,
    {
        Retry { stop, wait, jitter }
    }

    /// The wait after failed attempt `attempt`, with jitter applied.
    fn calc_wait_time(&self, attempt: usize) -> (r: Duration)
        ensures
            self.jitter_policy().admits(self.wait_policy().wait_of(attempt as nat), r@),
    {
        self.jitter.apply(self.wait.wait_duration(attempt))
    }

    /// The same engine with its stop strategy replaced.
    pub fn stop<S2: StopStrategy>(self, stop_strategy: S2) -> (r: Retry<S2, W, J>)
        ensures
            r.stop_policy() == stop_strategy,
            r.wait_policy() == self.wait_policy(),
            r.jitter_policy() == self.jitter_policy(),
    {
        Retry { stop: stop_strategy, wait: self.wait, jitter: self.jitter }
    }

    /// The same engine with its wait strategy replaced.
    pub fn wait<W2: WaitStrategy>(self, wait_strategy: W2) -> (r: Retry<S, W2, J>)
        ensures
            r.stop_policy() == self.stop_policy(),
            r.wait_policy() == wait_strategy,
            r.jitter_policy() == self.jitter_policy(),
    {
        Retry { stop: self.stop, wait: wait_strategy, jitter: self.jitter }
    }

    /// The same engine with its jitter strategy replaced.
    pub fn jitter<J2: JitterStrategy>(self, jitter_strategy: J2) -> (r: Retry<S, W, J2>)
        ensures
            r.stop_policy() == self.stop_policy(),
            r.wait_policy() == self.wait_policy(),
            r.jitter_policy() == jitter_strategy,
    {
        Retry { stop: self.stop, wait: self.wait, jitter: jitter_strategy }
    }

    /// Whether the loop ends after attempt `attempt`, which succeeded or not,
    /// with `elapsed` nanoseconds gone since the first attempt began.
    ///
    /// Success always ends the loop; a failure ends it when the stop strategy
    /// says so, or when the attempt counter cannot advance any further.
    pub open spec fn finishes(&self, attempt: nat, succeeded: bool, elapsed: nat) -> bool {
        succeeded || self.stop_policy().stops(attempt, elapsed) || attempt >= usize::MAX
    }

    /// Decides what the retry loop does once attempt `attempt` has ended.
    ///
    /// On success, or on a failure after which the stop strategy stops, the
    /// loop finishes with `attempt` and `elapsed` as its record. Otherwise it
    /// pauses for the wait strategy's wait for `attempt`, as randomised by the
    /// jitter strategy, and goes on with the next attempt.
    pub fn next_step(&self, attempt: usize, succeeded: bool, elapsed: Duration) -> (r: Step)
        ensures
            (r is Finish) == self.finishes(attempt as nat, succeeded, elapsed@),
            r matches Step::Finish(info) ==> info.attempts == attempt && info.elapsed == elapsed,
            r matches Step::Retry { pause, next_attempt } ==> {
                &&& next_attempt == attempt + 1
                &&& self.jitter_policy().admits(
                    self.wait_policy().wait_of(attempt as nat),
                    pause@,
                )
            },
    {
        if succeeded || self.stop.should_stop(attempt, elapsed) || attempt == usize::MAX {
            Step::Finish(RetryInfo { attempts: attempt, elapsed })
        } else {
            Step::Retry { pause: self.calc_wait_time(attempt), next_attempt: attempt + 1 }
        }
    }
}

} // verus!
