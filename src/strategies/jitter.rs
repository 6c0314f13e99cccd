use crate::duration::{millis_of, Duration, MAX_NANOS, NANOS_PER_MILLI};
use crate::strategies::JitterStrategy;
use vstd::prelude::*;

verus! {

/// Leaves the wait as it is.
pub struct NoJitter;

impl JitterStrategy for NoJitter {
    open spec fn admits(&self, wait: nat, jittered: nat) -> bool {
        jittered == wait
    }

    fn apply(&self, wait_duration: Duration) -> (r: Duration) {
        wait_duration
    }
}

/// Relies on `rand::random_range`: a value drawn uniformly from the half-open
/// range `0..bound`. It panics on an empty range, hence `bound > 0`.
#[verifier::external_body]
fn random_below(bound: u128) -> (r: u128)
    requires
        0 < bound,
    ensures
        r < bound,
{
    rand::random_range(0..bound)
}

/// Replaces the wait by a whole number of milliseconds drawn from
/// `[0, wait)`; a wait under one millisecond is left as it is.
pub struct FullJitter;

impl JitterStrategy for FullJitter {
    open spec fn admits(&self, wait: nat, jittered: nat) -> bool {
        if millis_of(wait) == 0 {
            jittered == wait
        } else {
            jittered % (NANOS_PER_MILLI as nat) == 0 && millis_of(jittered) < millis_of(wait)
        }
    }

    fn apply(&self, wait_duration: Duration) -> (r: Duration) {
        let millis = wait_duration.as_millis();
        let drawn = if millis == 0 {
            0
        } else {
            random_below(millis)
        };
        full_jitter_from(wait_duration, drawn)
    }
}

/// Full jitter with the draw given: `drawn` whole milliseconds in place of a
/// wait of at least one millisecond, and a shorter wait left as it is.
pub fn full_jitter_from(wait_duration: Duration, drawn: u128) -> (r: Duration)
    requires
        millis_of(wait_duration@) > 0 ==> drawn < millis_of(wait_duration@),
    ensures
        millis_of(wait_duration@) == 0 ==> r@ == wait_duration@,
        millis_of(wait_duration@) > 0 ==> r@ == drawn * NANOS_PER_MILLI,
        FullJitter.admits(wait_duration@, r@),
{
    let millis = wait_duration.as_millis();
    if millis == 0 {
        return wait_duration;
    }
    assert(drawn * NANOS_PER_MILLI <= MAX_NANOS) by (nonlinear_arith)
        requires
            drawn < millis,
            millis == wait_duration@ / (NANOS_PER_MILLI as nat),
            wait_duration@ <= MAX_NANOS,
    ;
    let r = Duration::from_nanos_u128(drawn * NANOS_PER_MILLI);
    assert(millis_of(r@) == drawn) by (nonlinear_arith)
        requires
            r@ == drawn * NANOS_PER_MILLI,
    ;
    assert(r@ % (NANOS_PER_MILLI as nat) == 0) by (nonlinear_arith)
        requires
            r@ == drawn * NANOS_PER_MILLI,
    ;
    r
}

/// Keeps half the wait and adds a whole number of milliseconds drawn from
/// `[0, half)`, so the result lies in `[wait / 2, wait)`; a wait under one
/// millisecond is left as it is.
pub struct EqualJitter;

impl JitterStrategy for EqualJitter {
    open spec fn admits(&self, wait: nat, jittered: nat) -> bool {
        let half = wait / 2;
        let bound = if millis_of(half) == 0 {
            1
        } else {
            millis_of(half)
        };
        if millis_of(wait) == 0 {
            jittered == wait
        } else {
            &&& jittered >= half
            &&& ((jittered - half) as nat) % (NANOS_PER_MILLI as nat) == 0
            &&& millis_of((jittered - half) as nat) < bound
        }
    }

    fn apply(&self, wait_duration: Duration) -> (r: Duration) {
        let half_millis = (wait_duration.as_nanos() / 2) / NANOS_PER_MILLI;
        let drawn = if half_millis == 0 {
            0
        } else {
            random_below(half_millis)
        };
        equal_jitter_from(wait_duration, drawn)
    }
}

/// Whole milliseconds in half a wait of `wait` nanoseconds.
pub open spec fn half_millis_of(wait: nat) -> nat {
    millis_of(wait / 2)
}

/// Equal jitter with the draw given: half of a wait of at least one
/// millisecond plus `drawn` whole milliseconds, where `drawn` is zero when
/// that half is under one millisecond; a shorter wait is left as it is.
pub fn equal_jitter_from(wait_duration: Duration, drawn: u128) -> (r: Duration)
    requires
        half_millis_of(wait_duration@) > 0 ==> drawn < half_millis_of(wait_duration@),
        half_millis_of(wait_duration@) == 0 ==> drawn == 0,
    ensures
        millis_of(wait_duration@) == 0 ==> r@ == wait_duration@,
        millis_of(wait_duration@) > 0 ==> r@ == wait_duration@ / 2 + drawn * NANOS_PER_MILLI,
        EqualJitter.admits(wait_duration@, r@),
{
    let millis = wait_duration.as_millis();
    if millis == 0 {
        return wait_duration;
    }
    let half = wait_duration.as_nanos() / 2;
    let half_millis = half / NANOS_PER_MILLI;
    assert(half + drawn * NANOS_PER_MILLI <= wait_duration@) by (nonlinear_arith)
        requires
            half == wait_duration@ / 2,
            half_millis == half / NANOS_PER_MILLI,
            half_millis == 0 ==> drawn == 0,
            half_millis > 0 ==> drawn < half_millis,
    ;
    let r = Duration::from_nanos_u128(half + drawn * NANOS_PER_MILLI);
    assert(millis_of((r@ - half) as nat) == drawn) by (nonlinear_arith)
        requires
            r@ == half + drawn * NANOS_PER_MILLI,
    ;
    assert(((r@ - half) as nat) % (NANOS_PER_MILLI as nat) == 0) by (nonlinear_arith)
        requires
            r@ == half + drawn * NANOS_PER_MILLI,
    ;
    r
}

/// Full jitter on a wait of at least one millisecond gives a strictly shorter
/// wait; on an empty wait it gives an empty wait.
pub proof fn lemma_full_jitter_bounds(wait: nat, jittered: nat)
    requires
        FullJitter.admits(wait, jittered),
    ensures
        millis_of(wait) > 0 ==> jittered < wait,
        wait == 0 ==> jittered == 0,
{
    if millis_of(wait) > 0 {
        let k = millis_of(jittered);
        assert(jittered < wait) by (nonlinear_arith)
            requires
                jittered % (NANOS_PER_MILLI as nat) == 0,
                k == jittered / (NANOS_PER_MILLI as nat),
                k < wait / (NANOS_PER_MILLI as nat),
        ;
    }
}

/// Equal jitter on a wait of at least one millisecond gives a wait in
/// `[wait / 2, wait)`.
pub proof fn lemma_equal_jitter_bounds(wait: nat, jittered: nat)
    requires
        EqualJitter.admits(wait, jittered),
        millis_of(wait) > 0,
    ensures
        wait / 2 <= jittered < wait,
{
    let half = wait / 2;
    let extra = (jittered - half) as nat;
    let k = millis_of(extra);
    if millis_of(half) == 0 {
        assert(extra == 0) by (nonlinear_arith)
            requires
                extra % (NANOS_PER_MILLI as nat) == 0,
                k == extra / (NANOS_PER_MILLI as nat),
                k < 1,
        ;
    } else {
        assert(extra < half) by (nonlinear_arith)
            requires
                extra % (NANOS_PER_MILLI as nat) == 0,
                k == extra / (NANOS_PER_MILLI as nat),
                k < half / (NANOS_PER_MILLI as nat),
        ;
    }
}

} // verus!
