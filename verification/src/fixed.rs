//! Fixed-point arithmetic core.
//!
//! Every monetary amount, rate and coefficient in this crate is a
//! fixed-point number: an integer counting ten-thousandths (four
//! decimal places), so `12_500` stands for `1.25`. Multiplication of
//! two fixed-point numbers rescales the double-width product back by
//! truncating toward zero, which makes every computation exact and
//! reproducible across all reduction kernels.

use vstd::prelude::*;

verus! {

/// Fixed-point units per whole currency unit: four decimal places.
pub const FP_SCALE: i64 = 10_000;

/// Does a mathematical integer fit in `i64`?
pub open spec fn i64_fits(x: int) -> bool {
    i64::MIN <= x <= i64::MAX
}

/// Quotient truncated toward zero (`d` is assumed positive).
///
/// Spec-mode `/` is Euclidean, which differs from machine division on
/// negative dividends; this expresses the machine semantics.
pub open spec fn quot_trunc(x: int, d: int) -> int {
    if x >= 0 {
        x / d
    } else {
        -((-x) / d)
    }
}

/// Exact value of the product of two fixed-point numbers, rescaled
/// back to fixed-point by truncation toward zero.
pub open spec fn fp_mul(a: int, b: int) -> int {
    quot_trunc(a * b, FP_SCALE as int)
}

/// Value of a raw accumulated sum of fixed-point products (which sits
/// at twice the fixed-point scale) with a fixed-point index applied,
/// rescaled back to the ordinary fixed-point scale.
pub open spec fn apply_index(raw: int, index: int) -> int {
    quot_trunc(raw * index, FP_SCALE as int * FP_SCALE as int)
}

/// A truncated quotient by a positive divisor shrinks magnitudes:
/// it lies within `[-(b / d), b / d]` whenever the dividend lies
/// within `[-b, b]`.
pub proof fn lemma_quot_trunc_bound(x: int, d: int, b: int)
    requires
        d >= 1,
        0 <= b,
        -b <= x <= b,
    ensures
        -(b / d) <= quot_trunc(x, d) <= b / d,
{
    if x >= 0 {
        vstd::arithmetic::div_mod::lemma_div_is_ordered(x, b, d);
        vstd::arithmetic::div_mod::lemma_div_pos_is_pos(x, d);
        vstd::arithmetic::div_mod::lemma_div_pos_is_pos(b, d);
    } else {
        vstd::arithmetic::div_mod::lemma_div_is_ordered(-x, b, d);
        vstd::arithmetic::div_mod::lemma_div_pos_is_pos(-x, d);
        vstd::arithmetic::div_mod::lemma_div_pos_is_pos(b, d);
    }
}

/// Magnitude bound on a product from magnitude bounds on its factors.
pub proof fn lemma_mul_bound(a: int, b: int, a_bound: int, b_bound: int)
    requires
        0 <= a_bound,
        0 <= b_bound,
        -a_bound <= a <= a_bound,
        -b_bound <= b <= b_bound,
    ensures
        -(a_bound * b_bound) <= a * b <= a_bound * b_bound,
{
    assert(-(a_bound * b_bound) <= a * b <= a_bound * b_bound) by (nonlinear_arith)
        requires
            0 <= a_bound,
            0 <= b_bound,
            -a_bound <= a <= a_bound,
            -b_bound <= b <= b_bound,
    ;
}

/// Negation distributes over multiplication.
pub proof fn lemma_neg_mul(a: int, b: int)
    ensures
        (-a) * b == -(a * b),
{
    assert((-a) * b == -(a * b)) by (nonlinear_arith);
}

/// One accumulation step keeps a running sum within its per-step
/// magnitude bound.
pub proof fn lemma_acc_step(acc: int, p: int, i: int, bound: int)
    requires
        0 <= i,
        0 <= bound,
        -i * bound <= acc <= i * bound,
        -bound <= p <= bound,
    ensures
        -(i + 1) * bound <= acc + p <= (i + 1) * bound,
{
    assert(-(i + 1) * bound <= acc + p <= (i + 1) * bound) by (nonlinear_arith)
        requires
            0 <= i,
            0 <= bound,
            -i * bound <= acc <= i * bound,
            -bound <= p <= bound,
    ;
}

/// When the dividend is a multiple of the divisor, the truncated
/// quotient is exact.
pub proof fn lemma_quot_trunc_exact(x: int, d: int)
    requires
        d >= 1,
        x % d == 0,
    ensures
        quot_trunc(x, d) * d == x,
{
    vstd::arithmetic::div_mod::lemma_fundamental_div_mod(x, d);
    if x >= 0 {
        let q: int = x / d;
        assert(quot_trunc(x, d) * d == x) by (nonlinear_arith)
            requires
                quot_trunc(x, d) == q,
                x == d * q + 0,
        ;
    } else {
        let q: int = x / d;
        assert(-x == (-q) * d + 0) by (nonlinear_arith)
            requires
                x == d * q + 0,
        ;
        vstd::arithmetic::div_mod::lemma_fundamental_div_mod_converse(-x, d, -q, 0);
        assert(quot_trunc(x, d) * d == x) by (nonlinear_arith)
            requires
                quot_trunc(x, d) == q,
                x == d * q + 0,
        ;
    }
}

/// Rescale a double-width fixed-point product back by `FP_SCALE`,
/// truncating toward zero.
pub fn fp_rescale(x: i128) -> (r: i128)
    requires
        x > i128::MIN,
    ensures
        r == quot_trunc(x as int, FP_SCALE as int),
{
    if x >= 0 {
        let m: u128 = x as u128;
        let q: u128 = m / 10_000u128;
        proof {
            assert(q <= m) by {
                vstd::arithmetic::div_mod::lemma_div_nonincreasing(m as int, 10_000);
            }
        }
        q as i128
    } else {
        let m: u128 = (-x) as u128;
        let q: u128 = m / 10_000u128;
        proof {
            assert(q <= m) by {
                vstd::arithmetic::div_mod::lemma_div_nonincreasing(m as int, 10_000);
            }
        }
        -(q as i128)
    }
}

/// Rescale a raw accumulated sum with the index applied (a product at
/// three times the fixed-point scale) back by `FP_SCALE * FP_SCALE`,
/// truncating toward zero.
pub fn fp_rescale_twice(x: i128) -> (r: i128)
    requires
        x > i128::MIN,
    ensures
        r == quot_trunc(x as int, FP_SCALE as int * FP_SCALE as int),
{
    if x >= 0 {
        let m: u128 = x as u128;
        let q: u128 = m / 100_000_000u128;
        proof {
            assert(q <= m) by {
                vstd::arithmetic::div_mod::lemma_div_nonincreasing(m as int, 100_000_000);
            }
        }
        q as i128
    } else {
        let m: u128 = (-x) as u128;
        let q: u128 = m / 100_000_000u128;
        proof {
            assert(q <= m) by {
                vstd::arithmetic::div_mod::lemma_div_nonincreasing(m as int, 100_000_000);
            }
        }
        -(q as i128)
    }
}

/// Fixed-point multiplication of two `i64` values.
pub fn fixed_mul(a: i64, b: i64) -> (r: i64)
    requires
        i64_fits(fp_mul(a as int, b as int)),
    ensures
        r as int == fp_mul(a as int, b as int),
{
    let wide: i128 = (a as i128) * (b as i128);
    let q: i128 = fp_rescale(wide);
    q as i64
}

/// Fixed-point multiplication of two `i128` values whose product does
/// not overflow.
pub fn fixed_mul_wide(a: i128, b: i128) -> (r: i128)
    requires
        i128::MIN < a * b <= i128::MAX,
    ensures
        r == fp_mul(a as int, b as int),
{
    let wide: i128 = a * b;
    fp_rescale(wide)
}

} // verus!
