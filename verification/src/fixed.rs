//! Fixed-point scalar model.
//!
//! Every physical quantity in this crate is an `i64` holding the real value
//! scaled by [`SCALE`]. Multiplying two scaled values therefore needs a
//! division by the scale afterwards, and that division is the truncating
//! division of Rust's `/` operator. [`div_trunc`] is the mathematical model
//! of that operator on signed operands, and the lemmas here relate it to the
//! Euclidean `/` of specifications.

use vstd::prelude::*;

verus! {

use vstd::arithmetic::div_mod::lemma_div_is_ordered;
use vstd::arithmetic::div_mod::lemma_div_pos_is_pos;

/// Scale of the fixed-point representation: 1000 fixed-point steps make one
/// real-world unit (metre, radian, kilogram, second).
pub const SCALE: i64 = 1000;

/// What Rust's `/` computes on signed operands: division truncated toward
/// zero. The Euclidean `/` of specifications rounds toward negative
/// infinity instead, so the two differ on negative dividends.
pub open spec fn div_trunc(a: int, d: int) -> int {
    if a >= 0 {
        a / d
    } else {
        -((-a) / d)
    }
}

/// Truncating division by a positive divisor never grows the magnitude of a
/// bounded dividend: `|a| <= b` gives `|a / d| <= b / d`.
pub proof fn lemma_div_trunc_bound(a: int, d: int, b: int)
    requires
        d > 0,
        0 <= b,
        -b <= a <= b,
    ensures
        -(b / d) <= div_trunc(a, d) <= b / d,
{
    if a >= 0 {
        lemma_div_is_ordered(a, b, d);
        lemma_div_pos_is_pos(a, d);
    } else {
        lemma_div_is_ordered(-a, b, d);
        lemma_div_pos_is_pos(-a, d);
    }
}

/// Truncating division of zero is zero whatever the positive divisor.
pub proof fn lemma_div_trunc_zero(d: int)
    requires
        d > 0,
    ensures
        div_trunc(0, d) == 0,
{
    vstd::arithmetic::div_mod::lemma_div_of0(d);
}

/// Truncating division undoes an exact multiplication by the divisor.
pub proof fn lemma_div_trunc_multiple(a: int, d: int)
    requires
        d > 0,
    ensures
        div_trunc(a * d, d) == a,
{
    if a >= 0 {
        assert(a * d == d * a) by (nonlinear_arith);
        assert(a * d >= 0) by (nonlinear_arith)
            requires
                a >= 0,
                d > 0,
        ;
        vstd::arithmetic::div_mod::lemma_div_multiples_vanish(a, d);
    } else {
        assert(-(a * d) == d * (-a)) by (nonlinear_arith);
        assert(a * d < 0) by (nonlinear_arith)
            requires
                a < 0,
                d > 0,
        ;
        vstd::arithmetic::div_mod::lemma_div_multiples_vanish(-a, d);
    }
}

} // verus!
