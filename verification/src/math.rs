//! Integer helpers shared by the feedback arithmetic: truncating division
//! (the rounding mode of the library's fixed-point computations) and
//! clamping, with the bound lemmas the overflow proofs need.

use vstd::prelude::*;

verus! {

/// Quotient of `a` and `b` rounded toward zero, the rounding every
/// fixed-point computation of the library uses. In specifications `/`
/// is Euclidean division, which rounds toward negative infinity; the
/// two agree on non-negative dividends.
pub open spec fn tdiv(a: int, b: int) -> int
    recommends
        b >= 1,
{
    if a >= 0 {
        a / b
    } else {
        -((-a) / b)
    }
}

/// `x` limited to the interval `[lo, hi]`.
pub open spec fn clamp_int(x: int, lo: int, hi: int) -> int
    recommends
        lo <= hi,
{
    if x < lo {
        lo
    } else if x > hi {
        hi
    } else {
        x
    }
}

/// The magnitude of a quotient never exceeds the magnitude of the dividend,
/// and the quotient keeps the dividend's sign.
pub proof fn lemma_tdiv_bounds(a: int, b: int)
    by (nonlinear_arith)
    requires
        b >= 1,
    ensures
        a >= 0 ==> 0 <= tdiv(a, b) <= a,
        a <= 0 ==> a <= tdiv(a, b) <= 0,
{
}

/// Rounding toward zero is an odd function of the dividend.
pub proof fn lemma_tdiv_neg(a: int, b: int)
    by (nonlinear_arith)
    requires
        b >= 1,
    ensures
        tdiv(-a, b) == -tdiv(a, b),
{
}

/// The quotient differs from the exact ratio by less than one, on either
/// side, stated without division: `b * tdiv(a, b)` is within `b` of `a`.
pub proof fn lemma_tdiv_exact_window(a: int, b: int)
    by (nonlinear_arith)
    requires
        b >= 1,
    ensures
        a >= 0 ==> a - b < b * tdiv(a, b) <= a,
        a <= 0 ==> a <= b * tdiv(a, b) < a + b,
{
}

/// A product of magnitude-bounded factors is magnitude-bounded.
pub proof fn lemma_mul_abs_bound(a: int, b: int, am: int, bm: int)
    by (nonlinear_arith)
    requires
        -am <= a <= am,
        -bm <= b <= bm,
    ensures
        -(am * bm) <= a * b <= am * bm,
{
}

/// Exact truncating division on machine integers.
pub fn div_trunc(a: i64, b: i64) -> (q: i64)
    requires
        b >= 1,
        a != i64::MIN,
    ensures
        q == tdiv(a as int, b as int),
{
    proof {
        lemma_tdiv_bounds(a as int, b as int);
    }
    if a >= 0 {
        a / b
    } else {
        let m = -a;
        proof {
            lemma_tdiv_bounds(m as int, b as int);
        }
        -(m / b)
    }
}

/// Exact clamping on machine integers.
pub fn clamp_i64(x: i64, lo: i64, hi: i64) -> (r: i64)
    requires
        lo <= hi,
    ensures
        r == clamp_int(x as int, lo as int, hi as int),
{
    if x < lo {
        lo
    } else if x > hi {
        hi
    } else {
        x
    }
}

} // verus!
