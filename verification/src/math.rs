//! Whole-number arithmetic that several modules share.

use vstd::prelude::*;

verus! {

/// The smaller of two numbers.
pub open spec fn least(a: int, b: int) -> int {
    if a <= b {
        a
    } else {
        b
    }
}

/// Whether `r` is the square root of `v`, rounded down.
pub open spec fn is_sqrt_floor(r: int, v: int) -> bool {
    0 <= r && r * r <= v < (r + 1) * (r + 1)
}

/// The square root of `v`, rounded down.
pub open spec fn sqrt_floor(v: int) -> int {
    choose|r: int| is_sqrt_floor(r, v)
}

/// A number has at most one rounded-down square root.
pub proof fn lemma_sqrt_floor_unique(a: int, b: int, v: int)
    requires
        is_sqrt_floor(a, v),
        is_sqrt_floor(b, v),
    ensures
        a == b,
{
    if a < b {
        assert((a + 1) * (a + 1) <= b * b) by (nonlinear_arith)
            requires
                0 <= a,
                a + 1 <= b,
        ;
    } else if b < a {
        assert((b + 1) * (b + 1) <= a * a) by (nonlinear_arith)
            requires
                0 <= b,
                b + 1 <= a,
        ;
    }
}

/// Every number from 0 on has a rounded-down square root.
pub proof fn lemma_sqrt_floor_exists(v: int)
    requires
        v >= 0,
    ensures
        is_sqrt_floor(sqrt_floor(v), v),
    decreases v,
{
    if v == 0 {
        assert(is_sqrt_floor(0, 0));
    } else {
        lemma_sqrt_floor_exists(v - 1);
        let r = sqrt_floor(v - 1);
        if (r + 1) * (r + 1) <= v {
            assert(v < (r + 2) * (r + 2)) by (nonlinear_arith)
                requires
                    0 <= r,
                    v - 1 < (r + 1) * (r + 1),
            ;
            assert(is_sqrt_floor(r + 1, v));
        } else {
            assert(is_sqrt_floor(r, v));
        }
    }
}

/// The rounded-down square root of a number is at least `k` where the
/// number is at least `k` squared.
pub proof fn lemma_sqrt_floor_at_least(v: int, k: int)
    requires
        k >= 0,
        v >= k * k,
    ensures
        sqrt_floor(v) >= k,
{
    assert(k * k >= 0) by (nonlinear_arith);
    lemma_sqrt_floor_exists(v);
    let r = sqrt_floor(v);
    if r < k {
        assert((r + 1) * (r + 1) <= k * k) by (nonlinear_arith)
            requires
                0 <= r,
                r + 1 <= k,
        ;
    }
}

/// The square root, rounded down.
pub fn isqrt(v: u128) -> (r: u64)
    ensures
        is_sqrt_floor(r as int, v as int),
        r == sqrt_floor(v as int),
{
    let mut low: u128 = 0;
    let mut high: u128 = 0x1_0000_0000_0000_0000;
    assert(0x1_0000_0000_0000_0000 * 0x1_0000_0000_0000_0000 > v) by (nonlinear_arith)
        requires
            v <= 0xffff_ffff_ffff_ffff_ffff_ffff_ffff_ffff,
    ;
    while high - low > 1
        invariant
            low < high <= 0x1_0000_0000_0000_0000,
            low * low <= v < high * high,
        decreases high - low,
    {
        let mid: u128 = low + (high - low) / 2;
        assert(mid * mid <= 0xffff_ffff_ffff_ffff * 0xffff_ffff_ffff_ffff) by (nonlinear_arith)
            requires
                0 <= mid <= 0xffff_ffff_ffff_ffff,
        ;
        if mid * mid <= v {
            low = mid;
        } else {
            high = mid;
        }
    }
    proof {
        assert(high == low + 1);
        assert(is_sqrt_floor(low as int, v as int));
        lemma_sqrt_floor_unique(low as int, sqrt_floor(v as int), v as int);
    }
    low as u64
}

} // verus!
