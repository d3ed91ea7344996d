//! Exponential backoff arithmetic, saturating at the integer limits.
use vstd::prelude::*;

verus! {

/// Two to the power `n`.
pub open spec fn two_pow(n: nat) -> nat
    decreases n,
{
    if n == 0 {
        1
    } else {
        2 * two_pow((n - 1) as nat)
    }
}

/// `v` capped at the largest `u64`.
pub open spec fn cap_u64(v: int) -> u64 {
    if v > u64::MAX {
        u64::MAX
    } else {
        v as u64
    }
}

proof fn lemma_two_pow_positive(n: nat)
    ensures
        two_pow(n) >= 1,
    decreases n,
{
    if n > 0 {
        lemma_two_pow_positive((n - 1) as nat);
    }
}

/// `2^n`, saturating (as `u64::saturating_pow` on 2).
pub fn saturating_pow2(n: u32) -> (r: u64)
    ensures
        r == cap_u64(two_pow(n as nat) as int),
{
    let mut r: u64 = 1;
    let mut i: u32 = 0;
    while i < n
        invariant
            i <= n,
            r == cap_u64(two_pow(i as nat) as int),
        decreases n - i,
    {
        proof {
            lemma_two_pow_positive(i as nat);
            assert(two_pow((i + 1) as nat) == 2 * two_pow(i as nat));
        }
        if r > u64::MAX / 2 {
            r = u64::MAX;
        } else {
            r = r * 2;
        }
        i = i + 1;
    }
    r
}

/// `a * b`, saturating (as `u64::saturating_mul`).
pub fn saturating_mul(a: u64, b: u64) -> (r: u64)
    ensures
        r == cap_u64(a * b),
{
    if a == 0 || b == 0 {
        assert(a * b == 0) by (nonlinear_arith)
            requires
                a == 0 || b == 0,
        ;
        return 0;
    }
    if a > u64::MAX / b {
        assert(a * b > u64::MAX) by (nonlinear_arith)
            requires
                a > u64::MAX / b,
                b > 0,
        ;
        u64::MAX
    } else {
        assert(a * b <= u64::MAX) by (nonlinear_arith)
            requires
                a <= u64::MAX / b,
                b > 0,
        ;
        a * b
    }
}

/// The wait, in seconds, before retry number `attempts + 1`: `2^attempts`,
/// at most `max_secs`.
pub open spec fn backoff_secs(attempts: u32, max_secs: u64) -> u64 {
    let p = cap_u64(two_pow(attempts as nat) as int);
    if p <= max_secs {
        p
    } else {
        max_secs
    }
}

/// Whether a retry is due: at once when nothing was tried yet, otherwise when
/// at least the backoff has passed since the last try (`since_last_ms`
/// milliseconds ago).
pub fn backoff_elapsed(attempts: u32, since_last_ms: Option<u64>, max_secs: u64) -> (b: bool)
    ensures
        b == match since_last_ms {
            None => true,
            Some(ms) => ms >= backoff_secs(attempts, max_secs) * 1000,
        },
{
    match since_last_ms {
        None => true,
        Some(ms) => {
            let p = saturating_pow2(attempts);
            let secs: u64 = if p <= max_secs {
                p
            } else {
                max_secs
            };
            (ms as u128) >= (secs as u128) * 1000
        },
    }
}

} // verus!
