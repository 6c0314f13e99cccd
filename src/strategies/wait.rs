use crate::duration::{Duration, MAX_NANOS};
use crate::strategies::WaitStrategy;
use vstd::prelude::*;

verus! {

/// Waits the same span after every attempt.
pub type WaitFixed = Duration;

impl WaitStrategy for WaitFixed {
    open spec fn wait_of(&self, attempt: nat) -> nat {
        self@
    }

    fn wait_duration(&self, attempt: usize) -> (r: Duration) {
        *self
    }
}

/// A fixed wait is the same for every attempt.
pub proof fn lemma_fixed_constant(d: WaitFixed, i: nat, j: nat)
    ensures
        d.wait_of(i) == d@,
        d.wait_of(i) == d.wait_of(j),
{
}

/// `b` raised to the power `e`.
pub open spec fn power(b: nat, e: nat) -> nat
    decreases e,
{
    if e == 0 {
        1
    } else {
        b * power(b, (e - 1) as nat)
    }
}

/// A nanosecond count clamped to the representable range.
pub open spec fn clamped(n: nat) -> nat {
    if n <= MAX_NANOS {
        n
    } else {
        MAX_NANOS as nat
    }
}

proof fn lemma_power_of_one(e: nat)
    ensures
        power(1, e) == 1,
    decreases e,
{
    if e > 0 {
        lemma_power_of_one((e - 1) as nat);
    }
}

proof fn lemma_power_positive(b: nat, e: nat)
    requires
        b >= 1,
    ensures
        power(b, e) >= 1,
    decreases e,
{
    if e > 0 {
        lemma_power_positive(b, (e - 1) as nat);
        assert(b * power(b, (e - 1) as nat) >= 1) by (nonlinear_arith)
            requires
                b >= 1,
                power(b, (e - 1) as nat) >= 1,
        ;
    }
}

proof fn lemma_power_grows(b: nat, i: nat, j: nat)
    requires
        b >= 1,
        i <= j,
    ensures
        power(b, i) <= power(b, j),
    decreases j,
{
    if i < j {
        lemma_power_grows(b, i, (j - 1) as nat);
        let p = power(b, (j - 1) as nat);
        assert(p <= b * p) by (nonlinear_arith)
            requires
                b >= 1,
        ;
    }
}

/// Waits `base * multiplier^attempt`, clamped to the longest representable span.
///
/// The computation is exact: no rounding builds up over many attempts.
pub struct WaitExponential {
    wait_duration_base: Duration,
    multiplier: u32,
}

impl WaitExponential {
    /// An exponential backoff starting at `wait_duration_base` and growing by
    /// the factor `multiplier` with each attempt.
    pub fn new(wait_duration_base: Duration, multiplier: u32) -> (r: WaitExponential)
        ensures
            r.base()@ == wait_duration_base@,
            r.multiplier() == multiplier,
    {
        WaitExponential { wait_duration_base, multiplier }
    }

    /// The wait after the first failed attempt.
    pub closed spec fn base(&self) -> Duration {
        self.wait_duration_base
    }

    /// The factor by which the wait grows per attempt.
    pub closed spec fn multiplier(&self) -> u32 {
        self.multiplier
    }
}

impl WaitStrategy for WaitExponential {
    open spec fn wait_of(&self, attempt: nat) -> nat {
        clamped(self.base()@ * power(self.multiplier() as nat, attempt))
    }

    fn wait_duration(&self, attempt: usize) -> (r: Duration) {
        let base = self.wait_duration_base.as_nanos();
        let m = self.multiplier as u128;
        let ghost b = base as nat;
        let mut acc: u128 = base;
        let mut i: usize = 0;
        assert(power(m as nat, 0) == 1);
        assert(b * power(m as nat, 0) == b);
        while i < attempt && acc != 0 && (acc != MAX_NANOS || m == 0) && m != 1
            invariant
                i <= attempt,
                acc <= MAX_NANOS,
                acc == clamped(b * power(m as nat, i as nat)),
                b == base,
                b <= MAX_NANOS,
                m == self.multiplier,
            decreases attempt - i,
        {
            let ghost before = b * power(m as nat, i as nat);
            assert(b * power(m as nat, (i + 1) as nat) == before * m) by (nonlinear_arith)
                requires
                    power(m as nat, (i + 1) as nat) == m * power(m as nat, i as nat),
                    before == b * power(m as nat, i as nat),
            ;
            assert(acc * m <= MAX_NANOS * u32::MAX) by (nonlinear_arith)
                requires
                    acc <= MAX_NANOS,
                    m <= u32::MAX,
            ;
            proof {
                if before > MAX_NANOS as nat {
                    assert(m == 0);
                    assert(before * m == 0 && acc * m == 0) by (nonlinear_arith)
                        requires
                            m == 0,
                    ;
                }
            }
            let next = acc * m;
            if next <= MAX_NANOS {
                acc = next;
            } else {
                acc = MAX_NANOS;
            }
            i = i + 1;
        }
        proof {
            let e = attempt as nat;
            let mm = m as nat;
            if i < attempt {
                if m == 1 {
                    lemma_power_of_one(e);
                    lemma_power_of_one(i as nat);
                } else if acc == 0 {
                    if b != 0 {
                        if mm >= 1 {
                            lemma_power_positive(mm, i as nat);
                            assert(b * power(mm, i as nat) >= 1) by (nonlinear_arith)
                                requires
                                    b >= 1,
                                    power(mm, i as nat) >= 1,
                            ;
                        }
                        assert(power(mm, e) == mm * power(mm, (e - 1) as nat));
                        assert(power(mm, e) == 0) by (nonlinear_arith)
                            requires
                                mm == 0,
                                power(mm, e) == mm * power(mm, (e - 1) as nat),
                        ;
                    }
                    assert(b * power(mm, e) == 0) by (nonlinear_arith)
                        requires
                            b == 0 || power(mm, e) == 0,
                    ;
                } else {
                    assert(acc == MAX_NANOS);
                    lemma_power_grows(mm, i as nat, e);
                    assert(b * power(mm, i as nat) <= b * power(mm, e)) by (nonlinear_arith)
                        requires
                            power(mm, i as nat) <= power(mm, e),
                    ;
                }
            }
        }
        Duration::from_nanos_u128(acc)
    }
}

/// Each exponential wait is `multiplier` times the previous one, clamped to
/// the longest representable span; the first is the base.
pub proof fn lemma_exponential_step(w: WaitExponential, attempt: nat)
    ensures
        w.wait_of(attempt + 1) == clamped(w.wait_of(attempt) * (w.multiplier() as nat)),
        w.wait_of(0) == clamped(w.base()@),
{
    let b = w.base()@;
    let m = w.multiplier() as nat;
    let p = power(m, attempt);
    assert(power(m, 0) == 1);
    assert(b * power(m, 0) == b);
    assert(power(m, attempt + 1) == m * p);
    assert(b * (m * p) == (b * p) * m) by (nonlinear_arith);
    assert(w.wait_of(attempt + 1) == clamped(b * (m * p)));
    assert(w.wait_of(attempt) == clamped(b * p));
    if m == 0 {
        assert(b * (m * p) == 0) by (nonlinear_arith)
            requires
                m == 0,
        ;
        assert(clamped(b * p) * m == 0) by (nonlinear_arith)
            requires
                m == 0,
        ;
    }
    if b * p > MAX_NANOS && m >= 1 {
        assert((b * p) * m >= b * p) by (nonlinear_arith)
            requires
                m >= 1,
        ;
        assert(MAX_NANOS * m >= MAX_NANOS) by (nonlinear_arith)
            requires
                m >= 1,
        ;
    }
}

} // verus!
