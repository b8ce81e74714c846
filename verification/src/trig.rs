//! Truncated Taylor polynomials for sine, cosine and arctangent on the ranges
//! the haversine formula needs, in `SCALE` fixed-point units.  Arguments
//! outside `[0, pi/2]` are folded into it by the caller, and the arctangent
//! argument is reduced through `atan(z) = pi/4 + atan((z-1)/(z+1))`, so every
//! polynomial runs where it converges.  Each exec function is proved equal to
//! its spec-level mirror; results are clamped into `[0, SCALE]`.

use vstd::prelude::*;
use vstd::arithmetic::mul::lemma_mul_inequality;
use vstd::arithmetic::div_mod::lemma_multiply_divide_le;
use crate::fixed::{ms, clamp_unit, mul_fp, lemma_ms_bound, SCALE};

verus! {

/// pi/2 in `SCALE` units, rounded to nearest.
pub const HALF_PI_FP: u128 = 1_570_796_326_794_896_619;

/// pi in `SCALE` units, rounded to nearest.
pub const PI_FP: u128 = 3_141_592_653_589_793_238;

/// pi/4 in `SCALE` units, rounded down.
pub const QUARTER_PI_FP: u128 = 785_398_163_397_448_309;

/// tan(pi/8) in `SCALE` units: above this the arctangent argument is reduced.
pub const TAN_EIGHTH_PI_FP: u128 = 414_213_562_373_095_049;

/// Sine polynomial `x - x^3/3! + x^5/5! - x^7/7!`, clamped into `[0, SCALE]`.
pub open spec fn sin_poly(x: int) -> int {
    let x2 = ms(x, x);
    let x3 = ms(x2, x);
    let x5 = ms(x3, x2);
    let x7 = ms(x5, x2);
    clamp_unit(x + x5 / 120 - x3 / 6 - x7 / 5040)
}

/// Cosine polynomial `1 - x^2/2! + x^4/4! - x^6/6! + x^8/8!`, clamped into
/// `[0, SCALE]`.
pub open spec fn cos_poly(x: int) -> int {
    let x2 = ms(x, x);
    let x4 = ms(x2, x2);
    let x6 = ms(x4, x2);
    let x8 = ms(x6, x2);
    clamp_unit(SCALE + x4 / 24 + x8 / 40320 - x2 / 2 - x6 / 720)
}

/// Arctangent polynomial `z - z^3/3 + z^5/5 - z^7/7 + z^9/9`, clamped into
/// `[0, SCALE]`.
pub open spec fn atan_poly(z: int) -> int {
    let z2 = ms(z, z);
    let z3 = ms(z2, z);
    let z5 = ms(z3, z2);
    let z7 = ms(z5, z2);
    let z9 = ms(z7, z2);
    clamp_unit(z + z5 / 5 + z9 / 9 - z3 / 3 - z7 / 7)
}

/// Arctangent of a ratio in `[0, 1]`, with argument reduction above
/// `tan(pi/8)`.
pub open spec fn atan_unit(z: int) -> int {
    if z <= TAN_EIGHTH_PI_FP {
        atan_poly(z)
    } else {
        QUARTER_PI_FP - atan_poly((SCALE - z) * (SCALE as int) / (SCALE + z))
    }
}

/// First-quadrant two-argument arctangent on `[0, SCALE]` coordinates.
pub open spec fn atan2_spec(y: int, x: int) -> int {
    if y <= 0 {
        0
    } else if x <= 0 {
        HALF_PI_FP as int
    } else if y <= x {
        atan_unit(y * (SCALE as int) / x)
    } else {
        HALF_PI_FP - atan_unit(x * (SCALE as int) / y)
    }
}

pub fn sin_fp(x: u128) -> (r: u128)
    requires
        x <= 1_600_000_000_000_000_000,
    ensures
        r as int == sin_poly(x as int),
        r <= SCALE,
{
    proof {
        lemma_ms_bound(x as int, x as int, 1_600_000_000_000_000_000, 1_600_000_000_000_000_000);
    }
    let x2 = mul_fp(x, x);
    proof {
        lemma_ms_bound(x2 as int, x as int, 2_560_000_000_000_000_000, 1_600_000_000_000_000_000);
    }
    let x3 = mul_fp(x2, x);
    proof {
        lemma_ms_bound(x3 as int, x2 as int, 4_096_000_000_000_000_000, 2_560_000_000_000_000_000);
    }
    let x5 = mul_fp(x3, x2);
    proof {
        lemma_ms_bound(x5 as int, x2 as int, 10_485_760_000_000_000_000, 2_560_000_000_000_000_000);
    }
    let x7 = mul_fp(x5, x2);
    let pos = x + x5 / 120;
    let neg = x3 / 6 + x7 / 5040;
    let t = if pos <= neg {
        0
    } else {
        pos - neg
    };
    if t > SCALE {
        SCALE
    } else {
        t
    }
}

pub fn cos_fp(x: u128) -> (r: u128)
    requires
        x <= 1_600_000_000_000_000_000,
    ensures
        r as int == cos_poly(x as int),
        r <= SCALE,
{
    proof {
        lemma_ms_bound(x as int, x as int, 1_600_000_000_000_000_000, 1_600_000_000_000_000_000);
    }
    let x2 = mul_fp(x, x);
    proof {
        lemma_ms_bound(x2 as int, x2 as int, 2_560_000_000_000_000_000, 2_560_000_000_000_000_000);
    }
    let x4 = mul_fp(x2, x2);
    proof {
        lemma_ms_bound(x4 as int, x2 as int, 6_553_600_000_000_000_000, 2_560_000_000_000_000_000);
    }
    let x6 = mul_fp(x4, x2);
    proof {
        lemma_ms_bound(x6 as int, x2 as int, 16_777_216_000_000_000_000, 2_560_000_000_000_000_000);
    }
    let x8 = mul_fp(x6, x2);
    let pos = SCALE + x4 / 24 + x8 / 40320;
    let neg = x2 / 2 + x6 / 720;
    let t = if pos <= neg {
        0
    } else {
        pos - neg
    };
    if t > SCALE {
        SCALE
    } else {
        t
    }
}

pub fn atan_poly_fp(z: u128) -> (r: u128)
    requires
        z <= 600_000_000_000_000_000,
    ensures
        r as int == atan_poly(z as int),
        r <= 700_000_000_000_000_000,
{
    proof {
        lemma_ms_bound(z as int, z as int, 600_000_000_000_000_000, 600_000_000_000_000_000);
    }
    let z2 = mul_fp(z, z);
    proof {
        lemma_ms_bound(z2 as int, z as int, 360_000_000_000_000_000, 600_000_000_000_000_000);
    }
    let z3 = mul_fp(z2, z);
    proof {
        lemma_ms_bound(z3 as int, z2 as int, 216_000_000_000_000_000, 360_000_000_000_000_000);
    }
    let z5 = mul_fp(z3, z2);
    proof {
        lemma_ms_bound(z5 as int, z2 as int, 77_760_000_000_000_000, 360_000_000_000_000_000);
    }
    let z7 = mul_fp(z5, z2);
    proof {
        lemma_ms_bound(z7 as int, z2 as int, 27_993_600_000_000_000, 360_000_000_000_000_000);
    }
    let z9 = mul_fp(z7, z2);
    let pos = z + z5 / 5 + z9 / 9;
    let neg = z3 / 3 + z7 / 7;
    let t = if pos <= neg {
        0
    } else {
        pos - neg
    };
    if t > SCALE {
        SCALE
    } else {
        t
    }
}

pub fn atan_unit_fp(z: u128) -> (r: u128)
    requires
        z <= SCALE,
    ensures
        r as int == atan_unit(z as int),
        r <= SCALE,
{
    if z <= TAN_EIGHTH_PI_FP {
        atan_poly_fp(z)
    } else {
        let num = (SCALE - z) * SCALE;
        let den = SCALE + z;
        let w = num / den;
        proof {
            assert(num as int <= 600_000_000_000_000_000 * (den as int));
            lemma_multiply_divide_le(num as int, den as int, 600_000_000_000_000_000);
        }
        let t = atan_poly_fp(w);
        QUARTER_PI_FP - t
    }
}

pub fn atan2_fp(y: u128, x: u128) -> (r: u128)
    requires
        y <= SCALE,
        x <= SCALE,
    ensures
        r as int == atan2_spec(y as int, x as int),
        r <= HALF_PI_FP,
{
    if y == 0 {
        0
    } else if x == 0 {
        HALF_PI_FP
    } else if y <= x {
        let z = y * SCALE / x;
        proof {
            lemma_mul_inequality(y as int, x as int, SCALE as int);
            lemma_multiply_divide_le((y as int) * (SCALE as int), x as int, SCALE as int);
        }
        atan_unit_fp(z)
    } else {
        let z = x * SCALE / y;
        proof {
            lemma_mul_inequality(x as int, y as int, SCALE as int);
            lemma_multiply_divide_le((x as int) * (SCALE as int), y as int, SCALE as int);
        }
        HALF_PI_FP - atan_unit_fp(z)
    }
}

} // verus!
