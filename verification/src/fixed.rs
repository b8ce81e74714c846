//! Fixed-point arithmetic at scale `SCALE` (10^18 units per 1.0), together
//! with an integer square root.  All values are non-negative, so exec `u128`
//! division and ghost `int` division agree and every exec function can be
//! proved equal to its spec-level mirror.

use vstd::prelude::*;
use vstd::arithmetic::mul::{lemma_mul_upper_bound, lemma_mul_nonnegative};
use vstd::arithmetic::div_mod::{lemma_div_is_ordered, lemma_div_pos_is_pos};

verus! {

/// Number of fixed-point units that represent the real number 1.0.
pub const SCALE: u128 = 1_000_000_000_000_000_000;

/// `a * b` rescaled back to `SCALE` units, on mathematical integers.
pub open spec fn ms(a: int, b: int) -> int {
    a * b / (SCALE as int)
}

/// Clamps a fixed-point value into the unit interval `[0, SCALE]`.
pub open spec fn clamp_unit(t: int) -> int {
    if t < 0 {
        0
    } else if t > SCALE {
        SCALE as int
    } else {
        t
    }
}

/// Bounds of `ms` follow from bounds of its arguments.
pub proof fn lemma_ms_bound(a: int, b: int, ab: int, bb: int)
    requires
        0 <= a <= ab,
        0 <= b <= bb,
    ensures
        0 <= ms(a, b) <= ab * bb / (SCALE as int),
{
    lemma_mul_upper_bound(a, ab, b, bb);
    lemma_mul_nonnegative(a, b);
    lemma_div_is_ordered(a * b, ab * bb, SCALE as int);
    lemma_div_pos_is_pos(a * b, SCALE as int);
}

/// Fixed-point multiplication: computes `a * b / SCALE` exactly as `ms` does.
pub fn mul_fp(a: u128, b: u128) -> (r: u128)
    requires
        a <= 40_000_000_000_000_000_000,
        b <= 4_000_000_000_000_000_000,
    ensures
        r as int == ms(a as int, b as int),
{
    proof {
        lemma_mul_upper_bound(
            a as int,
            40_000_000_000_000_000_000,
            b as int,
            4_000_000_000_000_000_000,
        );
        lemma_mul_nonnegative(a as int, b as int);
    }
    (a * b) / SCALE
}

/// Mathematical floor of the square root, defined by counting up.
pub open spec fn sqrt_floor(n: int) -> int
    decreases n,
{
    if n <= 0 {
        0
    } else {
        let r = sqrt_floor(n - 1);
        if (r + 1) * (r + 1) <= n {
            r + 1
        } else {
            r
        }
    }
}

/// `sqrt_floor(n)` really is the floor of the square root of `n`.
pub proof fn lemma_sqrt_floor_props(n: int)
    requires
        0 <= n,
    ensures
        0 <= sqrt_floor(n),
        sqrt_floor(n) * sqrt_floor(n) <= n,
        n < (sqrt_floor(n) + 1) * (sqrt_floor(n) + 1),
    decreases n,
{
    if n > 0 {
        lemma_sqrt_floor_props(n - 1);
        let p = sqrt_floor(n - 1);
        if (p + 1) * (p + 1) <= n {
            assert(n <= (p + 1) * (p + 1));
            assert((p + 2) * (p + 2) > (p + 1) * (p + 1)) by (nonlinear_arith)
                requires 0 <= p;
        }
    }
}

/// The floor of the square root is unique.
pub proof fn lemma_sqrt_floor_unique(n: int, r: int)
    requires
        0 <= n,
        0 <= r,
        r * r <= n,
        n < (r + 1) * (r + 1),
    ensures
        r == sqrt_floor(n),
{
    lemma_sqrt_floor_props(n);
    let s = sqrt_floor(n);
    if r < s {
        assert(r + 1 <= s);
        assert((r + 1) * (r + 1) <= s * s) by (nonlinear_arith)
            requires 0 <= r + 1 <= s;
        assert(false);
    }
    if s < r {
        assert((s + 1) * (s + 1) <= r * r) by (nonlinear_arith)
            requires 0 <= s + 1 <= r;
        assert(false);
    }
}

/// Integer square root by binary search.
pub fn isqrt_fp(n: u128) -> (r: u128)
    requires
        n <= 1_000_000_000_000_000_000_000_000_000_000_000_000,
    ensures
        r as int == sqrt_floor(n as int),
        r <= SCALE,
{
    if n == 0 {
        proof {
            lemma_sqrt_floor_unique(0, 0);
        }
        return 0;
    }
    let mut lo: u128 = 0;
    let mut hi: u128 = 1_000_000_000_000_000_001;
    proof {
        assert((1_000_000_000_000_000_001 as int) * (1_000_000_000_000_000_001 as int)
            > 1_000_000_000_000_000_000_000_000_000_000_000_000) by (nonlinear_arith);
    }
    while lo + 1 < hi
        invariant
            lo < hi <= 1_000_000_000_000_000_001,
            (lo as int) * (lo as int) <= n as int,
            (n as int) < (hi as int) * (hi as int),
        decreases hi - lo,
    {
        let mid = lo + (hi - lo) / 2;
        proof {
            assert((mid as int) * (mid as int) <= u128::MAX as int) by (nonlinear_arith)
                requires 0 <= mid as int <= 1_000_000_000_000_000_001;
        }
        if mid * mid <= n {
            lo = mid;
        } else {
            hi = mid;
        }
    }
    proof {
        assert((hi as int) * (hi as int) <= ((lo + 1) as int) * ((lo + 1) as int))
            by (nonlinear_arith)
            requires 0 < hi as int <= (lo + 1) as int;
        lemma_sqrt_floor_unique(n as int, lo as int);
        assert(lo <= SCALE) by (nonlinear_arith)
            requires
                0 <= lo as int,
                (lo as int) * (lo as int) <= 1_000_000_000_000_000_000_000_000_000_000_000_000;
    }
    lo
}

} // verus!
