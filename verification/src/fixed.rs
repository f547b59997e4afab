//! Exact fixed-point arithmetic helpers.
//!
//! Every astronomical formula in this crate is integer arithmetic over
//! scaled values, built from two primitives: `mul_div` (multiply, then
//! divide by a positive scale, truncating toward zero) and
//! `divmod_floor` (flooring division with its remainder, used to
//! normalise times into a day). Both are verified exactly against the
//! spec-level functions below.

use vstd::prelude::*;
use vstd::arithmetic::div_mod::{
    lemma_div_is_ordered, lemma_div_is_ordered_by_denominator, lemma_div_pos_is_pos,
    lemma_fundamental_div_mod_converse,
};

verus! {

/// Integer division truncated toward zero, for a positive divisor.
/// (Verus's own `/` on `int` floors; executable signed division in this
/// crate divides magnitudes and reapplies the sign, which truncates.)
pub open spec fn tdiv(a: int, b: int) -> int {
    if a >= 0 {
        a / b
    } else {
        -((-a) / b)
    }
}

/// A product of values bounded in magnitude is bounded by the product
/// of the bounds.
proof fn lemma_abs_mul_bound(a: int, b: int, qa: int, qb: int)
    requires
        -qa <= a <= qa,
        -qb <= b <= qb,
    ensures
        -(qa * qb) <= a * b <= qa * qb,
{
    assert(-(qa * qb) <= a * b <= qa * qb) by (nonlinear_arith)
        requires
            -qa <= a <= qa,
            -qb <= b <= qb,
    ;
}

/// Truncating division keeps magnitude bounds: if `|p| <= pb` then
/// `|tdiv(p, d)| <= pb / d <= pb`.
proof fn lemma_tdiv_bound(p: int, d: int, pb: int)
    requires
        1 <= d,
        -pb <= p <= pb,
    ensures
        -(pb / d) <= tdiv(p, d) <= pb / d,
        -pb <= tdiv(p, d) <= pb,
        p >= 0 ==> tdiv(p, d) >= 0,
        p <= 0 ==> tdiv(p, d) <= 0,
{
    assert(0 <= pb);
    lemma_div_pos_is_pos(pb, d);
    lemma_div_is_ordered_by_denominator(pb, 1, d);
    assert(pb / 1 == pb);
    if p >= 0 {
        lemma_div_pos_is_pos(p, d);
        lemma_div_is_ordered(p, pb, d);
    } else {
        lemma_div_pos_is_pos(-p, d);
        lemma_div_is_ordered(-p, pb, d);
    }
}

/// Multiply `a * b`, divide by the positive scale `d`, truncating
/// toward zero. The ghost bounds `qa`, `qb` let each caller carry an
/// exact magnitude bound for the result.
pub(crate) fn mul_div(a: i64, b: i64, d: i64, Ghost(qa): Ghost<int>, Ghost(qb): Ghost<int>) -> (r:
    i64)
    requires
        1 <= d,
        -qa <= a as int <= qa,
        -qb <= b as int <= qb,
        qa * qb / (d as int) <= i64::MAX as int,
    ensures
        r as int == tdiv(a as int * b as int, d as int),
        -(qa * qb / (d as int)) <= r as int <= qa * qb / (d as int),
        a as int >= 0 && b as int >= 0 ==> r as int >= 0,
        a as int <= 0 && b as int >= 0 ==> r as int <= 0,
{
    proof {
        assert(a as int >= 0 && b as int >= 0 ==> a as int * b as int >= 0) by (nonlinear_arith);
        assert(a as int <= 0 && b as int >= 0 ==> a as int * b as int <= 0) by (nonlinear_arith);
        lemma_abs_mul_bound(a as int, b as int, qa, qb);
        lemma_abs_mul_bound(
            a as int,
            b as int,
            0x8000_0000_0000_0000,
            0x8000_0000_0000_0000,
        );
        lemma_tdiv_bound(a as int * b as int, d as int, qa * qb);
    }
    let p: i128 = (a as i128) * (b as i128);
    let dd: u128 = d as u128;
    let q: i128 = if p >= 0 {
        ((p as u128) / dd) as i128
    } else {
        -(((-p) as u128 / dd) as i128)
    };
    q as i64
}

/// Flooring division with remainder: `a == q * b + r` and `0 <= r < b`.
/// This matches Verus's spec-level `/` and `%`, which round toward
/// negative infinity for a positive divisor.
pub(crate) fn divmod_floor(a: i64, b: i64) -> (qr: (i64, i64))
    requires
        1 <= b,
        -0x4000_0000_0000_0000 <= a <= 0x4000_0000_0000_0000,
    ensures
        qr.0 as int == a as int / b as int,
        qr.1 as int == a as int % b as int,
{
    proof {
        lemma_tdiv_bound(a as int, b as int, 0x4000_0000_0000_0000);
    }
    let qt: i64 = if a >= 0 {
        ((a as u64) / (b as u64)) as i64
    } else {
        -((((-(a as i128)) as u128 / (b as u128)) as i128) as i64)
    };
    proof {
        assert(qt as int == tdiv(a as int, b as int));
        if a >= 0 {
            vstd::arithmetic::div_mod::lemma_fundamental_div_mod(a as int, b as int);
            assert(qt as int * b as int == a as int - (a as int % b as int));
        } else {
            let u = -(a as int);
            let v = u / (b as int);
            vstd::arithmetic::div_mod::lemma_fundamental_div_mod(u, b as int);
            assert(v * b as int == u - (u % b as int));
            assert(qt as int == -v);
            assert(qt as int * b as int == -(v * b as int)) by (nonlinear_arith)
                requires
                    qt as int == -v,
            ;
            assert(qt as int * b as int == a as int + (u % b as int));
        }
    }
    let rt: i64 = a - qt * b;
    if rt < 0 {
        proof {
            assert((qt as int - 1) * b as int == qt as int * b as int - b as int)
                by (nonlinear_arith);
            lemma_fundamental_div_mod_converse(
                a as int,
                b as int,
                qt as int - 1,
                rt as int + b as int,
            );
        }
        (qt - 1, rt + b)
    } else {
        proof {
            lemma_fundamental_div_mod_converse(a as int, b as int, qt as int, rt as int);
        }
        (qt, rt)
    }
}

} // verus!
