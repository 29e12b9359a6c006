//! Signed fixed-point scalars.
//!
//! A scalar (a world-space length, an angle in radians, a duration in
//! seconds) is an `i64` holding `FP_SCALE` sub-units per unit. The scale is
//! chosen so that every tunable of the controller (speeds, forces, the mouse
//! sensitivity, the pitch guard) is exactly representable.

use vstd::prelude::*;
use vstd::arithmetic::div_mod::{
    lemma_div_is_ordered, lemma_div_pos_is_pos, lemma_mod_add_multiples_vanish,
    lemma_mod_sub_multiples_vanish, lemma_small_mod,
};
use vstd::arithmetic::mul::lemma_mul_upper_bound;

verus! {

/// Fixed-point sub-units per unit.
pub const FP_SCALE: i64 = 192_000;

/// Largest magnitude a fixed-point operand of [`fp_mul`] may have.
/// `FP_MAX * FP_MAX` still fits in 64 bits.
pub const FP_MAX: i64 = 3_000_000_000;

/// Largest magnitude [`fp_mul`] can return: `FP_MAX * FP_MAX / FP_SCALE`.
pub const FP_MUL_MAX: i64 = 46_875_000_000_000;

/// Clamp `x` into `[lo, hi]`.
pub open spec fn spec_clamp(x: int, lo: int, hi: int) -> int {
    if x < lo {
        lo
    } else if x > hi {
        hi
    } else {
        x
    }
}

/// The fixed-point product `a * b / FP_SCALE`, with the quotient rounded
/// toward zero (the rounding the executable division performs).
pub open spec fn spec_fp_mul(a: int, b: int) -> int {
    if a * b >= 0 {
        (a * b) / (FP_SCALE as int)
    } else {
        -((-(a * b)) / (FP_SCALE as int))
    }
}

/// Fixed-point multiplication: `a` times `b`, both scaled by `FP_SCALE`.
pub fn fp_mul(a: i64, b: i64) -> (r: i64)
    requires
        -FP_MAX <= a <= FP_MAX,
        -FP_MAX <= b <= FP_MAX,
    ensures
        r == spec_fp_mul(a as int, b as int),
        -FP_MUL_MAX <= r <= FP_MUL_MAX,
{
    let neg: bool = (a < 0) != (b < 0);
    let aa: u64 = if a < 0 {
        (-a) as u64
    } else {
        a as u64
    };
    let bb: u64 = if b < 0 {
        (-b) as u64
    } else {
        b as u64
    };
    proof {
        assert(aa * bb <= FP_MAX * FP_MAX) by {
            lemma_mul_upper_bound(aa as int, FP_MAX as int, bb as int, FP_MAX as int);
        }
        assert(aa * bb == if a * b >= 0 { a * b } else { -(a * b) }) by (nonlinear_arith)
            requires
                aa == (if a < 0 { -(a as int) } else { a as int }),
                bb == (if b < 0 { -(b as int) } else { b as int }),
        ;
    }
    let prod: u64 = aa * bb;
    let q: u64 = prod / (FP_SCALE as u64);
    proof {
        lemma_div_is_ordered(prod as int, (FP_MAX * FP_MAX) as int, FP_SCALE as int);
        lemma_div_pos_is_pos(prod as int, FP_SCALE as int);
    }
    if neg {
        proof {
            if a * b >= 0 {
                assert(a * b == 0) by (nonlinear_arith)
                    requires
                        (a < 0) != (b < 0),
                        a * b >= 0,
                ;
            }
        }
        -(q as i64)
    } else {
        proof {
            if a * b < 0 {
                assert(false) by (nonlinear_arith)
                    requires
                        (a < 0) == (b < 0),
                        a * b < 0,
                ;
            }
        }
        q as i64
    }
}

/// The sign of a fixed-point product follows the signs of its operands.
pub proof fn lemma_fp_mul_nonpos(a: int, b: int)
    requires
        a <= 0,
        b >= 0,
    ensures
        spec_fp_mul(a, b) <= 0,
{
    assert(a * b <= 0) by (nonlinear_arith)
        requires
            a <= 0,
            b >= 0,
    ;
    if a * b >= 0 {
        assert(a * b == 0);
        assert(spec_fp_mul(a, b) == 0);
    } else {
        lemma_div_pos_is_pos(-(a * b), FP_SCALE as int);
    }
}

/// Clamp `x` into `[lo, hi]`.
pub fn fp_clamp(x: i64, lo: i64, hi: i64) -> (r: i64)
    requires
        lo <= hi,
    ensures
        r == spec_clamp(x as int, lo as int, hi as int),
        lo <= r <= hi,
{
    if x < lo {
        lo
    } else if x > hi {
        hi
    } else {
        x
    }
}

/// Largest magnitude [`fp_wrap`] accepts; wide enough for any angle a
/// single tick's pointer delta can produce.
pub const FP_WRAP_MAX: i64 = 100_000_000_000_000;

/// Wrap `a` into `[0, m)`, keeping its residue modulo `m`. The result is
/// the mathematical (Euclidean) remainder `a % m`.
pub fn fp_wrap(a: i64, m: i64) -> (r: i64)
    requires
        0 < m,
        -FP_WRAP_MAX <= a <= FP_WRAP_MAX,
    ensures
        r == (a as int) % (m as int),
        0 <= r < m,
{
    let mut r: i64 = a;
    proof {
        lemma_mod_sub_multiples_vanish(a as int, m as int);
    }
    while r < 0
        invariant
            0 < m,
            -FP_WRAP_MAX <= r,
            r < FP_WRAP_MAX + m,
            (r as int) % (m as int) == (a as int) % (m as int),
        decreases m - r,
    {
        proof {
            lemma_mod_add_multiples_vanish(r as int, m as int);
        }
        r = r + m;
    }
    while r >= m
        invariant
            0 < m,
            0 <= r,
            r < FP_WRAP_MAX + m,
            (r as int) % (m as int) == (a as int) % (m as int),
        decreases r,
    {
        proof {
            lemma_mod_sub_multiples_vanish(r as int, m as int);
        }
        r = r - m;
    }
    proof {
        lemma_small_mod(r as nat, m as nat);
    }
    r
}

} // verus!
