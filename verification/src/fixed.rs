//! Fixed-point scalars.
//!
//! A scalar quantity (a coordinate, a speed, a view-plane distance, a time in
//! seconds) is stored as an `i64` count of millionths of its unit: the value
//! `1_500_000` stands for `1.5`. Products of two fixed-point scalars are
//! divided by [`FP_ONE`] again, with the quotient rounded toward zero, which
//! is the rounding the hardware's truncating casts use.

use vstd::prelude::*;

verus! {

/// Number of fixed-point steps in one unit: a scalar `v: i64` stands for the
/// real number `v / FP_ONE`.
pub const FP_ONE: i64 = 1_000_000;

/// Quotient of `a / b` rounded toward zero (for `b > 0`). Verus's own `/` on
/// `int` is Euclidean division, which rounds down instead; truncation is what
/// the executable division operators produce.
pub open spec fn div_tz(a: int, b: int) -> int {
    if a >= 0 {
        a / b
    } else {
        -((-a) / b)
    }
}

/// Absolute value of a mathematical integer.
pub open spec fn abs_int(a: int) -> int {
    if a >= 0 {
        a
    } else {
        -a
    }
}

/// The fixed-point product of scalar `v` and fixed-point factor `s`:
/// `v * s` rescaled back down by `FP_ONE`, rounded toward zero.
pub open spec fn scaled(v: int, s: int) -> int {
    div_tz(v * s, FP_ONE as int)
}

/// Truncating division of `a` by a positive divisor `b`, the exact executable
/// counterpart of [`div_tz`].
pub fn div_trunc(a: i128, b: i128) -> (r: i128)
    requires
        b > 0,
    ensures
        r == div_tz(a as int, b as int),
{
    proof {
        lemma_div_tz_bounds(a as int, b as int);
    }
    a.checked_div(b).unwrap()
}

/// The magnitude of a truncating quotient never exceeds the magnitude of the
/// dividend, and the quotient keeps the dividend's sign.
pub proof fn lemma_div_tz_bounds(a: int, b: int)
    requires
        b > 0,
    ensures
        a >= 0 ==> 0 <= div_tz(a, b) <= a,
        a < 0 ==> a <= div_tz(a, b) <= 0,
        abs_int(div_tz(a, b)) <= abs_int(a),
{
    if a >= 0 {
        vstd::arithmetic::div_mod::lemma_div_pos_is_pos(a, b);
        vstd::arithmetic::div_mod::lemma_div_nonincreasing(a, b);
    } else {
        vstd::arithmetic::div_mod::lemma_div_pos_is_pos(-a, b);
        vstd::arithmetic::div_mod::lemma_div_nonincreasing(-a, b);
    }
}

/// Scaling by zero, or scaling the zero scalar, gives zero.
pub proof fn lemma_scaled_zero(t: int)
    ensures
        scaled(0, t) == 0,
        scaled(t, 0) == 0,
{
    vstd::arithmetic::mul::lemma_mul_by_zero_is_zero(t);
    vstd::arithmetic::div_mod::lemma_div_of0(FP_ONE as int);
}

/// Scaling by the fixed-point unit is the identity.
pub proof fn lemma_scaled_unit(t: int)
    ensures
        scaled(t, FP_ONE as int) == t,
{
    if t >= 0 {
        vstd::arithmetic::div_mod::lemma_div_multiples_vanish(t, FP_ONE as int);
    } else {
        vstd::arithmetic::div_mod::lemma_div_multiples_vanish(-t, FP_ONE as int);
        assert(-(t * FP_ONE) == (-t) * FP_ONE) by (nonlinear_arith);
    }
}

/// The magnitude of a truncating quotient by a positive divisor is the
/// quotient of the magnitude.
pub proof fn lemma_div_tz_abs(a: int, b: int)
    requires
        b > 0,
    ensures
        abs_int(div_tz(a, b)) == abs_int(a) / b,
{
    if a >= 0 {
        vstd::arithmetic::div_mod::lemma_div_pos_is_pos(a, b);
    } else {
        vstd::arithmetic::div_mod::lemma_div_pos_is_pos(-a, b);
    }
}

/// A fixed-point product's magnitude is bounded by the rescaled product of
/// the factors' bounds.
pub proof fn lemma_scaled_tight_bound(v: int, s: int, vb: int, sb: int)
    requires
        abs_int(v) <= vb,
        abs_int(s) <= sb,
    ensures
        abs_int(scaled(v, s)) <= vb * sb / (FP_ONE as int),
{
    lemma_abs_mul_bound(v, s, vb, sb);
    lemma_div_tz_abs(v * s, FP_ONE as int);
    vstd::arithmetic::div_mod::lemma_div_is_ordered(abs_int(v * s), vb * sb, FP_ONE as int);
}

/// Fixed-point product of two scalars: `a * b / FP_ONE`, truncated toward
/// zero, computed without intermediate overflow.
pub fn scale_fp(a: i64, b: i64) -> (r: i64)
    requires
        i64::MIN <= scaled(a as int, b as int) <= i64::MAX,
    ensures
        r == scaled(a as int, b as int),
{
    proof {
        lemma_abs_mul_bound(
            a as int,
            b as int,
            9_223_372_036_854_775_808,
            9_223_372_036_854_775_808,
        );
    }
    let p = (a as i128) * (b as i128);
    let q = div_trunc(p, FP_ONE as i128);
    q as i64
}

/// A product's magnitude is bounded by the product of the factors' bounds.
pub proof fn lemma_abs_mul_bound(v: int, s: int, vb: int, sb: int)
    requires
        abs_int(v) <= vb,
        abs_int(s) <= sb,
    ensures
        abs_int(v * s) <= vb * sb,
{
    assert(abs_int(v * s) <= vb * sb) by (nonlinear_arith)
        requires
            abs_int(v) <= vb,
            abs_int(s) <= sb,
    ;
}

/// A fixed-point product's magnitude is bounded by the product of the
/// factors' bounds (without even crediting the rescaling division).
pub proof fn lemma_scaled_bound(v: int, s: int, vb: int, sb: int)
    requires
        abs_int(v) <= vb,
        abs_int(s) <= sb,
    ensures
        abs_int(scaled(v, s)) <= vb * sb,
{
    lemma_abs_mul_bound(v, s, vb, sb);
    lemma_div_tz_bounds(v * s, FP_ONE as int);
}

} // verus!
