//! Small verified helpers: clamping, unwrapping a `Result` known to be
//! `Ok`, and an integer square root used for projectile aiming.

use vstd::prelude::*;

verus! {

/// Mathematical clamp, applying the lower bound first and then the upper
/// bound (so a crossed pair of bounds resolves to the upper bound).
pub open spec fn clamped(value: int, lower_bound: int, upper_bound: int) -> int {
    let raised = if value < lower_bound {
        lower_bound
    } else {
        value
    };
    if raised > upper_bound {
        upper_bound
    } else {
        raised
    }
}

/// Clamp `value` into `[lower_bound, upper_bound]`, lower bound first.
pub fn clamp(value: i64, lower_bound: i64, upper_bound: i64) -> (r: i64)
    ensures
        r == clamped(value as int, lower_bound as int, upper_bound as int),
{
    let mut clamped_value = value;
    if clamped_value < lower_bound {
        clamped_value = lower_bound;
    }
    if clamped_value > upper_bound {
        clamped_value = upper_bound;
    }
    clamped_value
}

/// Saturate a mathematical integer into the range of `i32`.
pub open spec fn sat_i32(v: int) -> int {
    if v < i32::MIN as int {
        i32::MIN as int
    } else if v > i32::MAX as int {
        i32::MAX as int
    } else {
        v
    }
}

/// Extract the success value of a `Result` that is known to be `Ok`.
pub fn obtain_result<T, E>(res: Result<T, E>) -> (r: T)
    requires
        res is Ok,
    ensures
        res == Ok::<T, E>(r),
{
    match res {
        Ok(r) => r,
        Err(_) => vstd::pervasive::unreached(),
    }
}

/// `r` is the floor of the square root of `n`.
pub open spec fn is_sqrt_floor(n: nat, r: nat) -> bool {
    r * r <= n < (r + 1) * (r + 1)
}

/// The floor of the square root of `n`.
pub open spec fn sqrt_floor(n: nat) -> nat {
    choose|r: nat| is_sqrt_floor(n, r)
}

/// Every natural number has a square-root floor, and `sqrt_floor` is it.
pub proof fn lemma_sqrt_floor_exists(n: nat)
    ensures
        is_sqrt_floor(n, sqrt_floor(n)),
    decreases n,
{
    if n == 0 {
        assert(0 * 0 <= 0 < (0 + 1) * (0 + 1)) by (nonlinear_arith);
        assert(is_sqrt_floor(0, 0));
    } else {
        lemma_sqrt_floor_exists((n - 1) as nat);
        let r = sqrt_floor((n - 1) as nat);
        if n < (r + 1) * (r + 1) {
            assert(is_sqrt_floor(n, r));
        } else {
            assert(n == (r + 1) * (r + 1));
            assert((r + 1) * (r + 1) < (r + 2) * (r + 2)) by (nonlinear_arith);
            assert(is_sqrt_floor(n, (r + 1) as nat));
        }
    }
}

/// The square-root floor is unique.
pub proof fn lemma_sqrt_floor_unique(n: nat, r: nat)
    requires
        is_sqrt_floor(n, r),
    ensures
        sqrt_floor(n) == r,
{
    lemma_sqrt_floor_exists(n);
    let s = sqrt_floor(n);
    if r < s {
        assert((r + 1) * (r + 1) <= s * s) by (nonlinear_arith)
            requires
                r + 1 <= s,
        ;
    }
    if s < r {
        assert((s + 1) * (s + 1) <= r * r) by (nonlinear_arith)
            requires
                s + 1 <= r,
        ;
    }
}

/// The square-root floor is monotonic.
pub proof fn lemma_sqrt_floor_monotonic(a: nat, b: nat)
    requires
        a <= b,
    ensures
        sqrt_floor(a) <= sqrt_floor(b),
{
    lemma_sqrt_floor_exists(a);
    lemma_sqrt_floor_exists(b);
    let ra = sqrt_floor(a);
    let rb = sqrt_floor(b);
    if rb < ra {
        assert((rb + 1) * (rb + 1) <= ra * ra) by (nonlinear_arith)
            requires
                rb + 1 <= ra,
        ;
    }
}

/// Floor of the square root of `n`, by binary search.
pub fn isqrt(n: u64) -> (r: u64)
    requires
        n < 0x1_0000_0000,
    ensures
        r as nat == sqrt_floor(n as nat),
        is_sqrt_floor(n as nat, r as nat),
{
    let mut lo: u64 = 0;
    let mut hi: u64 = 0x1_0000;
    while hi - lo > 1
        invariant
            lo < hi <= 0x1_0000,
            lo * lo <= n,
            n < hi * hi,
            n < 0x1_0000_0000,
        decreases hi - lo,
    {
        let mid = lo + (hi - lo) / 2;
        assert((mid as nat) * (mid as nat) <= 0xffff_ffff) by (nonlinear_arith)
            requires
                mid <= 0xffff,
        ;
        if mid * mid <= n {
            lo = mid;
        } else {
            hi = mid;
        }
    }
    proof {
        lemma_sqrt_floor_unique(n as nat, lo as nat);
    }
    lo
}

} // verus!
