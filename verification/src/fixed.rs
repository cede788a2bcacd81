//! Fixed-point arithmetic helpers shared by the control modules.
//!
//! Control quantities (gains, speeds, power levels) are signed fixed-point
//! numbers: an `i64` counting units of one millionth, so that `SCALE` units
//! stand for the real value 1.0.  Intermediate products are computed in
//! `i128`, where a product of two `i64` values can never overflow.

use vstd::prelude::*;

verus! {

/// Number of fixed-point units that stand for the real value 1.0.
pub const SCALE: i64 = 1_000_000;

/// Round-toward-zero division, the semantics of Rust's `/` on signed
/// integers, defined here for positive divisors.
pub open spec fn trunc_div(a: int, b: int) -> int {
    if a >= 0 {
        a / b
    } else {
        -((-a) / b)
    }
}

/// Saturation of an arbitrary integer into the `i64` range.
pub open spec fn sat64(x: int) -> int {
    if x > i64::MAX as int {
        i64::MAX as int
    } else if x < i64::MIN as int {
        i64::MIN as int
    } else {
        x
    }
}

/// Clamp `x` into the closed interval `[min, max]`.
pub open spec fn clamp(x: int, min: int, max: int) -> int {
    if x > max {
        max
    } else if x < min {
        min
    } else {
        x
    }
}

/// Fixed-point product of two scaled values: the real-number product,
/// rescaled and truncated toward zero.
pub open spec fn scaled_mul(a: int, b: int) -> int {
    trunc_div(a * b, SCALE as int)
}

/// The product of two values bounded in magnitude is bounded by the product
/// of the magnitudes.
pub proof fn lemma_mul_abs_bound(x: int, y: int, m1: int, m2: int)
    requires
        -m1 <= x <= m1,
        -m2 <= y <= m2,
        0 <= m1,
        0 <= m2,
    ensures
        -(m1 * m2) <= x * y <= m1 * m2,
{
    assert(-(m1 * m2) <= x * y <= m1 * m2) by (nonlinear_arith)
        requires
            -m1 <= x <= m1,
            -m2 <= y <= m2,
            0 <= m1,
            0 <= m2,
    ;
}

/// A truncated quotient keeps the sign of the dividend and is bounded by any
/// multiple bound on the dividend: `|a| <= m * b` gives `|a / b| <= m`.
pub proof fn lemma_trunc_div_bound(a: int, b: int, m: int)
    requires
        b >= 1,
        0 <= m,
        -(m * b) <= a <= m * b,
    ensures
        a >= 0 ==> 0 <= trunc_div(a, b) <= m,
        a < 0 ==> -m <= trunc_div(a, b) <= 0,
        -m <= trunc_div(a, b) <= m,
{
    if a >= 0 {
        vstd::arithmetic::div_mod::lemma_div_pos_is_pos(a, b);
        vstd::arithmetic::div_mod::lemma_div_is_ordered(a, m * b, b);
        vstd::arithmetic::div_mod::lemma_div_multiples_vanish(m, b);
        assert(m * b == b * m) by (nonlinear_arith);
    } else {
        vstd::arithmetic::div_mod::lemma_div_pos_is_pos(-a, b);
        vstd::arithmetic::div_mod::lemma_div_is_ordered(-a, m * b, b);
        vstd::arithmetic::div_mod::lemma_div_multiples_vanish(m, b);
        assert(m * b == b * m) by (nonlinear_arith);
    }
}

/// A truncated quotient of an exact multiple recovers the factor:
/// `(b * x) / b == x`.
pub proof fn lemma_trunc_div_exact(x: int, b: int)
    requires
        b >= 1,
    ensures
        trunc_div(b * x, b) == x,
{
    if x >= 0 {
        assert(b * x >= 0) by (nonlinear_arith)
            requires
                b >= 1,
                x >= 0,
        ;
        vstd::arithmetic::div_mod::lemma_div_multiples_vanish(x, b);
    } else {
        assert(b * x < 0 && -(b * x) == b * (-x)) by (nonlinear_arith)
            requires
                b >= 1,
                x < 0,
        ;
        vstd::arithmetic::div_mod::lemma_div_multiples_vanish(-x, b);
    }
}

/// Round-toward-zero division on wide integers.
pub fn div_trunc(a: i128, b: i128) -> (q: i128)
    requires
        b > 0,
        a > i128::MIN,
    ensures
        q == trunc_div(a as int, b as int),
{
    if a >= 0 {
        let au: u128 = a as u128;
        let bu: u128 = b as u128;
        let qu: u128 = au / bu;
        assert(qu <= au) by (nonlinear_arith)
            requires
                bu >= 1,
                qu == au / bu,
        ;
        qu as i128
    } else {
        let au: u128 = (-a) as u128;
        let bu: u128 = b as u128;
        let qu: u128 = au / bu;
        assert(qu <= au) by (nonlinear_arith)
            requires
                bu >= 1,
                qu == au / bu,
        ;
        -(qu as i128)
    }
}

/// Saturate a wide value into the `i64` range.
pub fn saturate_to_i64(x: i128) -> (r: i64)
    ensures
        r == sat64(x as int),
{
    if x > i64::MAX as i128 {
        i64::MAX
    } else if x < i64::MIN as i128 {
        i64::MIN
    } else {
        x as i64
    }
}

/// Clamp a wide value into `[min, max]`.
pub fn clamp_to_i64(x: i128, min: i64, max: i64) -> (r: i64)
    requires
        min <= max,
    ensures
        r == clamp(x as int, min as int, max as int),
{
    if x > max as i128 {
        max
    } else if x < min as i128 {
        min
    } else {
        x as i64
    }
}

/// Magnitude bound that every fixed-point product of two `i64` values obeys
/// after rescaling; three such terms can be summed in `i128` without
/// overflow.
pub const TERM_BOUND: i128 = 0x8_0000_0000_0000_0000_0000_0000_0000;

/// Fixed-point product of two scaled `i64` values, exact in `i128`.
pub fn mul_scaled(a: i64, b: i64) -> (r: i128)
    ensures
        r == scaled_mul(a as int, b as int),
        -TERM_BOUND <= r <= TERM_BOUND,
{
    proof {
        lemma_mul_abs_bound(a as int, b as int, 0x8000_0000_0000_0000, 0x8000_0000_0000_0000);
        lemma_trunc_div_bound((a as int) * (b as int), SCALE as int, TERM_BOUND as int);
    }
    let p: i128 = (a as i128) * (b as i128);
    div_trunc(p, SCALE as i128)
}

} // verus!
