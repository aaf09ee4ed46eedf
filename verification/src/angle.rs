//! Yaw angles and the trigonometry the camera basis needs.
//!
//! An angle is an `i64` count of millidegrees; a full turn is
//! [`MILLIDEG_TURN`]. Sine and cosine are computed with Bhaskara I's rational
//! approximation, entirely in integers, so the basis vectors are an exact,
//! deterministic function of the angle: the approximation is exact at the
//! four cardinal angles and everywhere within about `0.0017` of the real
//! sine, which is far below what a one-pixel step on screen can resolve.

use vstd::prelude::*;
use crate::fixed::FP_ONE;

verus! {

/// Millidegrees in a full turn.
pub const MILLIDEG_TURN: i64 = 360_000;

/// Millidegrees in half a turn.
pub const MILLIDEG_HALF_TURN: i64 = 180_000;

/// Millidegrees in a quarter turn.
pub const MILLIDEG_QUARTER_TURN: i64 = 90_000;

/// Bhaskara I's sine approximation on the first half-turn, in fixed point:
/// for `x` millidegrees with `0 <= x <= 180_000`, the sine of `x` is close to
/// `4 t / (40_500_000_000 - t)` where `t = x * (180_000 - x)`. The value is
/// exact at `0`, `90_000` and `180_000` millidegrees.
pub open spec fn half_wave(x: int) -> int {
    let t = x * (MILLIDEG_HALF_TURN - x);
    (4 * FP_ONE * t) / (40_500_000_000 - t)
}

/// Sine of a normalized angle `n` with `0 <= n < 360_000`: the second
/// half-turn mirrors the first with opposite sign.
pub open spec fn sin_millideg_norm(n: int) -> int {
    if n < MILLIDEG_HALF_TURN {
        half_wave(n)
    } else {
        -half_wave(n - MILLIDEG_HALF_TURN)
    }
}

/// Fixed-point sine of an arbitrary angle in millidegrees.
pub open spec fn sin_millideg(a: int) -> int {
    sin_millideg_norm(a % (MILLIDEG_TURN as int))
}

/// Fixed-point cosine of an arbitrary angle in millidegrees, as the sine a
/// quarter turn ahead.
pub open spec fn cos_millideg(a: int) -> int {
    sin_millideg(a + MILLIDEG_QUARTER_TURN)
}

/// Reduces an angle to its representative in `[0, 360_000)`.
pub fn normalize_angle(a: i64) -> (r: i64)
    ensures
        r == (a as int) % (MILLIDEG_TURN as int),
        0 <= r < MILLIDEG_TURN,
{
    proof {
        vstd::arithmetic::div_mod::lemma_mod_division_less_than_divisor(
            a as int,
            MILLIDEG_TURN as int,
        );
    }
    a.checked_rem_euclid(MILLIDEG_TURN).unwrap()
}

/// The product `x * (180_000 - x)` stays within `[0, 8_100_000_000]` on the
/// first half-turn; the peak is at the quarter turn.
proof fn lemma_half_wave_product_bounds(x: int)
    requires
        0 <= x <= MILLIDEG_HALF_TURN,
    ensures
        0 <= x * (MILLIDEG_HALF_TURN - x) <= 8_100_000_000,
{
    assert(0 <= x * (180_000 - x) <= 8_100_000_000) by (nonlinear_arith)
        requires
            0 <= x <= 180_000,
    ;
}

/// Evaluates [`half_wave`] exactly; the result stays within `[0, FP_ONE]`.
fn half_sine(x: i64) -> (r: i64)
    requires
        0 <= x <= MILLIDEG_HALF_TURN,
    ensures
        r == half_wave(x as int),
        0 <= r <= FP_ONE,
{
    proof {
        lemma_half_wave_product_bounds(x as int);
    }
    let t: u64 = (x as u64) * ((MILLIDEG_HALF_TURN - x) as u64);
    let num: u64 = 4_000_000u64 * t;
    let den: u64 = 40_500_000_000u64 - t;
    let q: u64 = num / den;
    proof {
        assert(num <= 1_000_000 * den);
        vstd::arithmetic::div_mod::lemma_multiply_divide_le(
            num as int,
            den as int,
            FP_ONE as int,
        );
    }
    q as i64
}

/// Fixed-point sine of any angle in millidegrees. The result is the exact
/// value of the spec-level [`sin_millideg`] and always lies in
/// `[-FP_ONE, FP_ONE]`.
pub fn sin_fp(a: i64) -> (r: i64)
    ensures
        r == sin_millideg(a as int),
        -FP_ONE <= r <= FP_ONE,
{
    let n = normalize_angle(a);
    if n < MILLIDEG_HALF_TURN {
        half_sine(n)
    } else {
        -half_sine(n - MILLIDEG_HALF_TURN)
    }
}

/// Fixed-point cosine of any angle in millidegrees, the exact value of
/// [`cos_millideg`], always in `[-FP_ONE, FP_ONE]`.
pub fn cos_fp(a: i64) -> (r: i64)
    ensures
        r == cos_millideg(a as int),
        -FP_ONE <= r <= FP_ONE,
{
    let n = normalize_angle(a);
    let r = sin_fp(n + MILLIDEG_QUARTER_TURN);
    proof {
        vstd::arithmetic::div_mod::lemma_add_mod_noop(
            a as int,
            MILLIDEG_QUARTER_TURN as int,
            MILLIDEG_TURN as int,
        );
        vstd::arithmetic::div_mod::lemma_mod_division_less_than_divisor(
            MILLIDEG_QUARTER_TURN as int,
            MILLIDEG_TURN as int,
        );
        vstd::arithmetic::div_mod::lemma_add_mod_noop(
            (a as int) % (MILLIDEG_TURN as int),
            MILLIDEG_QUARTER_TURN as int,
            MILLIDEG_TURN as int,
        );
        vstd::arithmetic::div_mod::lemma_mod_twice(a as int, MILLIDEG_TURN as int);
    }
    r
}

/// The approximation is exact at the four cardinal angles: sine and cosine
/// take the values 0, 1 and -1 (in fixed point) exactly where the real
/// functions do.
pub proof fn lemma_cardinal_sines()
    ensures
        sin_millideg(0) == 0,
        sin_millideg(90_000) == FP_ONE,
        sin_millideg(180_000) == 0,
        sin_millideg(270_000) == -FP_ONE,
        cos_millideg(0) == FP_ONE,
        cos_millideg(90_000) == 0,
        cos_millideg(180_000) == -FP_ONE,
        cos_millideg(270_000) == 0,
{
    assert(0int * (180_000 - 0) == 0) by (nonlinear_arith);
    assert(90_000int * (180_000 - 90_000) == 8_100_000_000int) by (nonlinear_arith);
    assert(180_000int * (180_000 - 180_000) == 0) by (nonlinear_arith);
    assert(4 * 1_000_000int * 8_100_000_000int == 32_400_000_000_000_000int)
        by (nonlinear_arith);
    assert(32_400_000_000int * 1_000_000int == 32_400_000_000_000_000int) by (nonlinear_arith);
    vstd::arithmetic::div_mod::lemma_div_of0(40_500_000_000int);
    vstd::arithmetic::div_mod::lemma_div_of0(32_400_000_000int);
    vstd::arithmetic::div_mod::lemma_div_multiples_vanish(1_000_000int, 32_400_000_000int);
    assert(half_wave(0) == 0);
    assert(half_wave(90_000) == FP_ONE);
    assert(half_wave(180_000) == 0);
}

/// A full turn of yaw leaves sine and cosine unchanged: the basis the camera
/// derives from its angle returns exactly to its original value.
pub proof fn lemma_full_turn(a: int)
    ensures
        sin_millideg(a + MILLIDEG_TURN) == sin_millideg(a),
        cos_millideg(a + MILLIDEG_TURN) == cos_millideg(a),
{
    vstd::arithmetic::div_mod::lemma_mod_add_multiples_vanish(a, MILLIDEG_TURN as int);
    vstd::arithmetic::div_mod::lemma_mod_add_multiples_vanish(
        a + MILLIDEG_QUARTER_TURN,
        MILLIDEG_TURN as int,
    );
}

} // verus!
