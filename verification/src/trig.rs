//! Fixed-point trigonometry for yaw rotations.
//!
//! Angles are integers in milliradians. Sine and cosine return integers in
//! milli-units, so a full-strength result is [`TRIG_ONE`] (= 1000). The
//! implementation reduces the angle into one period and evaluates a rational
//! approximation of sine on a half period (Bhaskara I's formula, with
//! rounded division), which is exact at 0, at a quarter turn and at a half
//! turn. The spec functions [`sin_milli`] and [`cos_milli`] state the result
//! of every call exactly, and the executable functions are proved equal to
//! them; the range lemmas bound every result by one unit in magnitude.

use vstd::prelude::*;

verus! {

use vstd::arithmetic::div_mod::lemma_div_pos_is_pos;
use vstd::arithmetic::div_mod::lemma_fundamental_div_mod;
use vstd::arithmetic::div_mod::lemma_fundamental_div_mod_converse_mod;
use vstd::arithmetic::div_mod::lemma_mod_bound;
use vstd::arithmetic::div_mod::lemma_multiply_divide_lt;

/// One full-strength trigonometric result: the fixed-point image of 1.0.
pub const TRIG_ONE: i64 = 1000;

/// Half a turn in milliradians (pi, truncated to the fixed-point grid).
pub const PI_MRAD: i64 = 3141;

/// A quarter turn in milliradians.
pub const HALF_PI_MRAD: i64 = 1571;

/// A full turn in milliradians (two pi, truncated to the fixed-point grid).
pub const TWO_PI_MRAD: i64 = 6283;

/// Five times `PI_MRAD` squared: the constant term of the denominator of
/// Bhaskara I's sine approximation, on the milliradian grid.
pub const FIVE_PI_SQ: i64 = 49_329_405;

/// An angle reduced into `[0, TWO_PI_MRAD)`: the canonical representative
/// of the angle's equivalence class modulo one turn.
pub open spec fn angle_norm(x: int) -> int {
    x % (TWO_PI_MRAD as int)
}

/// Sine on the first half period, `r` in `[0, PI_MRAD]`, by Bhaskara I's
/// rational approximation with division rounded to the nearest integer:
/// `sin(r/1000) ~ 16 r (pi - r) / (5 pi^2 - 4 r (pi - r))`, scaled to
/// milli-units.
pub open spec fn sin_half(r: int) -> int {
    let p = r * (PI_MRAD - r);
    let num = 16 * p * (TRIG_ONE as int);
    let den = (FIVE_PI_SQ as int) - 4 * p;
    (2 * num + den) / (2 * den)
}

/// Fixed-point sine of an angle in milliradians, in milli-units.
pub open spec fn sin_milli(x: int) -> int {
    let n = angle_norm(x);
    if n <= PI_MRAD {
        sin_half(n)
    } else {
        -sin_half(n - (PI_MRAD as int))
    }
}

/// Fixed-point cosine of an angle in milliradians, in milli-units: sine
/// shifted by a quarter turn.
pub open spec fn cos_milli(x: int) -> int {
    sin_milli(x + (HALF_PI_MRAD as int))
}

/// The product `r * (PI_MRAD - r)` over the half period stays within
/// `[0, 1570 * 1571]`; the quadratic peaks between the two integers nearest
/// the quarter turn.
proof fn lemma_half_period_product_bounds(r: int)
    requires
        0 <= r <= PI_MRAD,
    ensures
        0 <= r * (PI_MRAD - r) <= 2_466_470,
{
    if r <= 1570 {
        assert(0 <= r * (3141 - r) <= 2_466_470) by (nonlinear_arith)
            requires
                0 <= r <= 1570,
        ;
    } else {
        assert(0 <= r * (3141 - r) <= 2_466_470) by (nonlinear_arith)
            requires
                1571 <= r <= 3141,
        ;
    }
}

/// On the half period the approximation stays within `[0, TRIG_ONE]`.
pub proof fn lemma_sin_half_range(r: int)
    requires
        0 <= r <= PI_MRAD,
    ensures
        0 <= sin_half(r) <= TRIG_ONE,
{
    let p = r * (PI_MRAD - r);
    let num = 16 * p * (TRIG_ONE as int);
    let den = (FIVE_PI_SQ as int) - 4 * p;
    lemma_half_period_product_bounds(r);
    assert(den >= 39_463_525);
    lemma_div_pos_is_pos(2 * num + den, 2 * den);
    assert(2 * num + den < (2 * den) * 1001) by (nonlinear_arith)
        requires
            0 <= p <= 2_466_470,
            num == 16 * p * 1000,
            den == 49_329_405 - 4 * p,
    ;
    lemma_multiply_divide_lt(2 * num + den, 2 * den, 1001);
}

/// The executable reduction of an angle into `[0, TWO_PI_MRAD)`: Rust's
/// `%` truncates toward zero, so a negative remainder is shifted up by one
/// turn to reach the Euclidean representative.
fn angle_norm_fixed(x: i64) -> (n: i64)
    ensures
        n == angle_norm(x as int),
        0 <= n < TWO_PI_MRAD,
{
    let m: i64 = x % TWO_PI_MRAD;
    proof {
        let xi = x as int;
        let t = TWO_PI_MRAD as int;
        if xi >= 0 {
            lemma_mod_bound(xi, t);
        } else {
            let r = (-xi) % t;
            let q = (-xi) / t;
            lemma_mod_bound(-xi, t);
            lemma_fundamental_div_mod(-xi, t);
            if r == 0 {
                lemma_fundamental_div_mod_converse_mod(xi, t, -q, 0);
            } else {
                assert(xi == (-q - 1) * t + (t - r)) by (nonlinear_arith)
                    requires
                        -xi == t * q + r,
                ;
                lemma_fundamental_div_mod_converse_mod(xi, t, -q - 1, t - r);
            }
        }
    }
    if m < 0 {
        m + TWO_PI_MRAD
    } else {
        m
    }
}

/// Executable Bhaskara approximation on the half period.
fn sin_half_fixed(r: i64) -> (s: i64)
    requires
        0 <= r <= PI_MRAD,
    ensures
        s == sin_half(r as int),
        0 <= s <= TRIG_ONE,
{
    proof {
        lemma_half_period_product_bounds(r as int);
        lemma_sin_half_range(r as int);
    }
    let p: i64 = r * (PI_MRAD - r);
    let num: i64 = 16 * p * TRIG_ONE;
    let den: i64 = FIVE_PI_SQ - 4 * p;
    (2 * num + den) / (2 * den)
}

/// Fixed-point sine: exactly [`sin_milli`], within one unit in magnitude.
pub fn sin_fixed(x: i64) -> (s: i64)
    ensures
        s == sin_milli(x as int),
        -TRIG_ONE <= s <= TRIG_ONE,
{
    let n = angle_norm_fixed(x);
    if n <= PI_MRAD {
        proof {
            lemma_sin_half_range(n as int);
        }
        sin_half_fixed(n)
    } else {
        proof {
            lemma_sin_half_range(n as int - PI_MRAD as int);
        }
        -sin_half_fixed(n - PI_MRAD)
    }
}

/// Fixed-point cosine: exactly [`cos_milli`], within one unit in magnitude.
/// The angle is reduced before the quarter-turn shift, so no argument can
/// overflow the shift.
pub fn cos_fixed(x: i64) -> (c: i64)
    ensures
        c == cos_milli(x as int),
        -TRIG_ONE <= c <= TRIG_ONE,
{
    let n = angle_norm_fixed(x);
    proof {
        let t = TWO_PI_MRAD as int;
        let h = HALF_PI_MRAD as int;
        let xi = x as int;
        // Shifting the canonical representative shifts the angle: both
        // sides of the reduction agree modulo one turn.
        lemma_mod_bound(xi, t);
        lemma_fundamental_div_mod(xi, t);
        if n as int + h < t {
            lemma_fundamental_div_mod_converse_mod(xi + h, t, xi / t, n as int + h);
        } else {
            assert(xi + h == (xi / t + 1) * t + (n as int + h - t)) by (nonlinear_arith)
                requires
                    xi == t * (xi / t) + n as int,
            ;
            lemma_fundamental_div_mod_converse_mod(xi + h, t, xi / t + 1, n as int + h - t);
        }
        assert(angle_norm(n as int + h) == angle_norm(xi + h));
    }
    sin_fixed(n + HALF_PI_MRAD)
}

/// Every fixed-point sine stays within one unit in magnitude.
pub proof fn lemma_sin_milli_range(x: int)
    ensures
        -TRIG_ONE <= sin_milli(x) <= TRIG_ONE,
{
    let t = TWO_PI_MRAD as int;
    lemma_mod_bound(x, t);
    let n = angle_norm(x);
    if n <= PI_MRAD {
        lemma_sin_half_range(n);
    } else {
        lemma_sin_half_range(n - (PI_MRAD as int));
    }
}

/// Every fixed-point cosine stays within one unit in magnitude.
pub proof fn lemma_cos_milli_range(x: int)
    ensures
        -TRIG_ONE <= cos_milli(x) <= TRIG_ONE,
{
    lemma_sin_milli_range(x + (HALF_PI_MRAD as int));
}

} // verus!
