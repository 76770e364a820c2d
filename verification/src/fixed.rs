//! Exact fixed-point arithmetic with 16 fractional bits.
//!
//! Every real-valued quantity of the transform and raster stages is a
//! multiple of 1/65536, held in an `i64`.  Products and quotients round
//! toward zero, as machine division does; the spec functions here pin
//! that rounding exactly, so contracts downstream can speak of precise
//! integer results.

use vstd::prelude::*;
use vstd::arithmetic::div_mod::lemma_fundamental_div_mod;
use vstd::arithmetic::div_mod::lemma_fundamental_div_mod_converse;
use vstd::arithmetic::div_mod::lemma_div_pos_is_pos;
use vstd::arithmetic::div_mod::lemma_div_is_ordered;
use vstd::arithmetic::div_mod::lemma_div_by_multiple;
use vstd::arithmetic::mul::lemma_mul_is_commutative;

verus! {

/// The fixed-point representation of 1.
pub const FP_ONE: i64 = 65536;

/// Absolute value of a mathematical integer.
pub open spec fn abs_int(a: int) -> int {
    if a >= 0 {
        a
    } else {
        -a
    }
}

/// Division rounding toward zero, the behaviour of machine `/` on
/// signed integers.  (Ghost `/` alone is Euclidean.)
pub open spec fn tdiv(a: int, b: int) -> int
    recommends
        b != 0,
{
    if a >= 0 {
        a / b
    } else {
        -((-a) / b)
    }
}

/// Product of two fixed-point values.
pub open spec fn fp_mul(a: int, b: int) -> int {
    tdiv(a * b, 65536)
}

/// Quotient of two fixed-point values.
pub open spec fn fp_div(a: int, b: int) -> int
    recommends
        b != 0,
{
    tdiv(a * 65536, b)
}

/// For a positive divisor, truncating division has magnitude
/// `|a| / b`, which never exceeds `|a|` scaled back by `b`.
pub proof fn lemma_tdiv_bound(a: int, b: int)
    requires
        b > 0,
    ensures
        abs_int(tdiv(a, b)) == abs_int(a) / b,
        abs_int(tdiv(a, b)) * b <= abs_int(a),
{
    let m = abs_int(a);
    lemma_div_pos_is_pos(m, b);
    lemma_fundamental_div_mod(m, b);
    lemma_mul_is_commutative(b, m / b);
}

/// Bound on a product from bounds on the factors.
pub proof fn lemma_abs_mul_bound(a: int, b: int, ba: int, bb: int)
    requires
        abs_int(a) <= ba,
        abs_int(b) <= bb,
    ensures
        abs_int(a * b) <= ba * bb,
{
    assert(abs_int(a * b) <= ba * bb) by (nonlinear_arith)
        requires
            abs_int(a) <= ba,
            abs_int(b) <= bb,
    ;
}

/// Bound on a fixed-point product from bounds on the factors.
pub proof fn lemma_fp_mul_bound(a: int, b: int, ba: int, bb: int)
    requires
        abs_int(a) <= ba,
        abs_int(b) <= bb,
    ensures
        abs_int(fp_mul(a, b)) <= ba * bb / 65536,
{
    lemma_abs_mul_bound(a, b, ba, bb);
    lemma_tdiv_bound(a * b, 65536);
    lemma_div_is_ordered(abs_int(a * b), ba * bb, 65536);
}

/// Multiplying by the fixed-point 1 is exact.
pub proof fn lemma_fp_mul_one(a: int)
    ensures
        fp_mul(a, 65536) == a,
        fp_mul(65536, a) == a,
{
    if a >= 0 {
        assert(a * 65536 >= 0) by (nonlinear_arith)
            requires
                a >= 0,
        ;
        lemma_fundamental_div_mod_converse(a * 65536, 65536, a, 0);
    } else {
        assert(a * 65536 < 0 && -(a * 65536) == (-a) * 65536) by (nonlinear_arith)
            requires
                a < 0,
        ;
        lemma_fundamental_div_mod_converse((-a) * 65536, 65536, -a, 0);
    }
    assert(a * 65536 == 65536 * a) by (nonlinear_arith);
}

/// Multiplying by zero gives zero.
pub proof fn lemma_fp_mul_zero(a: int)
    ensures
        fp_mul(a, 0) == 0,
        fp_mul(0, a) == 0,
{
    assert(a * 0 == 0) by (nonlinear_arith);
    assert(0 * a == 0) by (nonlinear_arith);
    assert(0int / 65536 == 0);
}

/// Multiplying by the fixed-point −1 negates exactly.
pub proof fn lemma_fp_mul_neg_one(a: int)
    ensures
        fp_mul(a, -65536) == -a,
        fp_mul(-65536, a) == -a,
{
    lemma_fp_mul_one(-a);
    assert(a * (-65536) == (-a) * 65536) by (nonlinear_arith);
    assert((-65536) * a == (-a) * 65536) by (nonlinear_arith);
}

/// Fixed-point product.  The result must fit in the 64-bit range;
/// callers establish that from bounds on the factors.
pub fn fixed_mul(a: i64, b: i64) -> (r: i64)
    requires
        abs_int(a as int * b as int) <= 0x7fff_ffff_ffff_ffff * 0x10000,
    ensures
        r == fp_mul(a as int, b as int),
{
    proof {
        lemma_tdiv_bound(a as int * b as int, 65536);
        lemma_div_is_ordered(
            abs_int(a as int * b as int),
            0x7fff_ffff_ffff_ffffint * 0x10000,
            65536,
        );
        lemma_div_by_multiple(0x7fff_ffff_ffff_ffff, 0x10000);
    }
    let p: i128 = (a as i128) * (b as i128);
    let q: i128 = p / 65536;
    q as i64
}

/// Fixed-point quotient with a magnitude check: `None` when the
/// quotient's magnitude exceeds `limit`, the exact quotient
/// otherwise.
pub fn fixed_div_checked(a: i64, b: i64, limit: i64) -> (r: Option<i64>)
    requires
        b > 0,
        limit >= 0,
    ensures
        match r {
            Some(q) => q == fp_div(a as int, b as int) && abs_int(q as int) <= limit,
            None => abs_int(fp_div(a as int, b as int)) > limit,
        },
{
    let p: i128 = (a as i128) * 65536;
    proof {
        lemma_tdiv_bound(p as int, b as int);
        vstd::arithmetic::div_mod::lemma_div_is_ordered_by_denominator(
            abs_int(p as int),
            1,
            b as int,
        );
        vstd::arithmetic::div_mod::lemma_div_basics_2(abs_int(p as int));
    }
    let q: i128 = p / (b as i128);
    proof {
        assert(q as int == tdiv(p as int, b as int));
        assert(q as int == fp_div(a as int, b as int));
    }
    if q > (limit as i128) || q < -(limit as i128) {
        None
    } else {
        Some(q as i64)
    }
}

} // verus!
