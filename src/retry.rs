//! Exponential, capped backoff shared by the refresh path and stream
//! consumption.
use vstd::arithmetic::power::pow;
use vstd::prelude::*;

verus! {

/// The smaller of two integers.
pub open spec fn min_int(a: int, b: int) -> int {
    if a <= b {
        a
    } else {
        b
    }
}

/// The delay before retry `n` (counted from zero for the first retry):
/// `min(initial * multiplier^n, max)`.
pub open spec fn backoff_delay(initial: nat, multiplier: nat, max: nat, n: nat) -> int {
    min_int(initial * pow(multiplier as int, n), max as int)
}

/// Backoff parameters: how many retries follow a failed attempt, and how
/// long to wait before each of them. The multiplier is a whole number.
#[derive(Clone, Copy, Debug, PartialEq, Eq, Structural)]
pub struct RetryPolicy {
    pub max_retries: u32,
    pub initial_delay_ms: u64,
    pub max_delay_ms: u64,
    pub backoff_multiplier: u64,
}

impl RetryPolicy {
    pub open spec fn delay_spec(&self, n: nat) -> int {
        backoff_delay(
            self.initial_delay_ms as nat,
            self.backoff_multiplier as nat,
            self.max_delay_ms as nat,
            n,
        )
    }

    /// Whether a failure after `attempt` earlier retries may be retried.
    pub fn should_retry(&self, attempt: u32) -> (r: bool)
        ensures
            r == (attempt < self.max_retries),
    {
        attempt < self.max_retries
    }

    /// The delay in milliseconds before retry number `attempt`.
    pub fn next_delay(&self, attempt: u32) -> (r: u64)
        ensures
            r as int == self.delay_spec(attempt as nat),
    {
        let max = self.max_delay_ms;
        let mult = self.backoff_multiplier;
        let mut d: u64 = if self.initial_delay_ms <= max {
            self.initial_delay_ms
        } else {
            max
        };
        let mut k: u32 = 0;
        proof {
            lemma_backoff_zero(self.initial_delay_ms as nat, mult as nat, max as nat);
        }
        while k < attempt
            invariant
                k <= attempt,
                d as int == self.delay_spec(k as nat),
                max == self.max_delay_ms,
                mult == self.backoff_multiplier,
            decreases attempt - k,
        {
            proof {
                lemma_backoff_step(self.initial_delay_ms as nat, mult as nat, max as nat, k as nat);
            }
            d = match d.checked_mul(mult) {
                Some(p) => if p <= max {
                    p
                } else {
                    max
                },
                None => max,
            };
            k = k + 1;
        }
        d
    }
}

proof fn lemma_pow_nonneg(b: nat, e: nat)
    ensures
        pow(b as int, e) >= 0,
    decreases e,
{
    reveal(pow);
    if e > 0 {
        lemma_pow_nonneg(b, (e - 1) as nat);
        assert(b * pow(b as int, (e - 1) as nat) >= 0) by (nonlinear_arith)
            requires
                pow(b as int, (e - 1) as nat) >= 0,
        ;
    }
}

proof fn lemma_backoff_zero(initial: nat, multiplier: nat, max: nat)
    ensures
        backoff_delay(initial, multiplier, max, 0) == min_int(initial as int, max as int),
{
    assert(pow(multiplier as int, 0) == 1) by {
        reveal(pow);
    }
}

/// One more retry multiplies the previous delay and caps it again.
proof fn lemma_backoff_step(initial: nat, multiplier: nat, max: nat, n: nat)
    ensures
        backoff_delay(initial, multiplier, max, n + 1) == min_int(
            backoff_delay(initial, multiplier, max, n) * multiplier,
            max as int,
        ),
{
    let p = pow(multiplier as int, n);
    assert(pow(multiplier as int, n + 1) == multiplier * p) by {
        reveal(pow);
    }
    lemma_pow_nonneg(multiplier, n);
    let a = initial * p;
    assert(initial * (multiplier * p) == a * multiplier) by (nonlinear_arith)
        requires
            a == initial * p,
    ;
    assert(a >= 0) by (nonlinear_arith)
        requires
            initial >= 0,
            p >= 0,
            a == initial * p,
    ;
    if a <= max {
        assert(min_int(a, max as int) * multiplier == a * multiplier);
    } else {
        assert(max * multiplier <= a * multiplier) by (nonlinear_arith)
            requires
                max < a,
                multiplier >= 0,
        ;
        if multiplier >= 1 {
            assert(max * multiplier >= max) by (nonlinear_arith)
                requires
                    multiplier >= 1,
                    max >= 0,
            ;
        } else {
            assert(a * multiplier == 0 && max * multiplier == 0) by (nonlinear_arith)
                requires
                    multiplier == 0,
            ;
        }
    }
}

/// With a multiplier of at least one, the delay never decreases from one
/// retry to a later one, and it never exceeds the configured maximum.
pub proof fn lemma_delay_monotone(policy: RetryPolicy, n1: nat, n2: nat)
    requires
        policy.backoff_multiplier >= 1,
        n1 <= n2,
    ensures
        policy.delay_spec(n1) <= policy.delay_spec(n2),
        policy.delay_spec(n2) <= policy.max_delay_ms,
    decreases n2 - n1,
{
    let i = policy.initial_delay_ms as nat;
    let m = policy.backoff_multiplier as nat;
    let x = policy.max_delay_ms as nat;
    if n1 < n2 {
        lemma_delay_monotone(policy, n1, (n2 - 1) as nat);
        lemma_backoff_step(i, m, x, (n2 - 1) as nat);
        let prev = backoff_delay(i, m, x, (n2 - 1) as nat);
        assert(prev >= 0) by {
            lemma_pow_nonneg(m, (n2 - 1) as nat);
            assert(i * pow(m as int, (n2 - 1) as nat) >= 0) by (nonlinear_arith)
                requires
                    pow(m as int, (n2 - 1) as nat) >= 0,
            ;
        }
        assert(prev * m >= prev) by (nonlinear_arith)
            requires
                m >= 1,
                prev >= 0,
        ;
    }
}

} // verus!
