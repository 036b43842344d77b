//! Fixed-point scaling arithmetic shared by all measurement value types.
//!
//! A measurement stores an integer number of "ticks" of a per-dimension
//! canonical scale. Constructors multiply a milli-unit input by an exact
//! integer factor; accessors divide back, rounding to the nearest integer
//! with ties toward positive infinity. `div_round_spec` is that rounding
//! division; the lemmas below give the facts the measurement types need:
//! exactness on multiples, a magnitude bound, and the two-constant round
//! trip used by the angle conversions.

use vstd::prelude::*;
use vstd::arithmetic::div_mod::{
    lemma_fundamental_div_mod, lemma_fundamental_div_mod_converse_div,
};

verus! {

/// Division of `a` by `b` rounded to the nearest integer, ties toward
/// positive infinity; meaningful for positive `b`.
pub open spec fn div_round_spec(a: int, b: int) -> int
    recommends
        1 <= b,
{
    (2 * a + b) / (2 * b)
}

/// Characterization: `r = div_round_spec(a, b)` is the unique integer with
/// `b*r - a` in the half-open interval `(-b/2, b/2]`.
pub proof fn lemma_div_round_err(a: int, b: int)
    requires
        1 <= b,
    ensures
        -b < 2 * (b * div_round_spec(a, b) - a) <= b,
{
    let n = 2 * a + b;
    let d = 2 * b;
    let q = n / d;
    let m = n % d;
    lemma_fundamental_div_mod(n, d);
    vstd::arithmetic::div_mod::lemma_mod_division_less_than_divisor(n, d);
    vstd::arithmetic::div_mod::lemma_mod_bound(n, d);
    assert(0 <= m < d);
    assert(d * q == 2 * a + b - m);
    assert(2 * (b * q - a) == b - m) by (nonlinear_arith)
        requires
            d == 2 * b && d * q == 2 * a + b - m,
    ;
}

/// Rounding division is exact on multiples: `div_round_spec(b * v, b) == v`.
pub proof fn lemma_div_round_exact(v: int, b: int)
    requires
        1 <= b,
    ensures
        div_round_spec(b * v, b) == v,
{
    let n = 2 * (b * v) + b;
    let d = 2 * b;
    assert(n == v * d + b) by (nonlinear_arith)
        requires
            n == 2 * (b * v) + b && d == 2 * b,
    ;
    lemma_fundamental_div_mod_converse_div(n, d, v, b);
}

/// The rounded quotient lies between 0 and the dividend.
pub proof fn lemma_div_round_range(a: int, b: int)
    requires
        1 <= b,
    ensures
        a >= 0 ==> 0 <= div_round_spec(a, b) <= a,
        a < 0 ==> a <= div_round_spec(a, b) <= 0,
{
    let r = div_round_spec(a, b);
    lemma_div_round_err(a, b);
    assert(-b < 2 * (b * r - a) <= b);
    if a >= 0 {
        assert(0 <= r <= a) by (nonlinear_arith)
            requires
                1 <= b && a >= 0 && -b < 2 * (b * r - a) <= b,
        ;
    } else {
        assert(a <= r <= 0) by (nonlinear_arith)
            requires
                1 <= b && a < 0 && -b < 2 * (b * r - a) <= b,
        ;
    }
}

/// Bounds on two factors bound their product.
pub proof fn lemma_mul_bound(x: int, y: int, bx: int, by: int)
    requires
        0 <= bx,
        0 <= by,
        -bx <= x <= bx,
        -by <= y <= by,
    ensures
        -(bx * by) <= x * y <= bx * by,
{
    assert(-(bx * by) <= x * y <= bx * by) by (nonlinear_arith)
        requires
            0 <= bx && 0 <= by && -bx <= x <= bx && -by <= y <= by,
    ;
}

/// A dividend bounded by `m` multiples of the divisor yields a rounded
/// quotient bounded by `m`.
pub proof fn lemma_div_round_scaled_bound(a: int, b: int, m: int)
    requires
        1 <= b,
        0 <= m,
        -(m * b) <= a <= m * b,
    ensures
        -m <= div_round_spec(a, b) <= m,
{
    let r = div_round_spec(a, b);
    lemma_div_round_err(a, b);
    assert(-m <= r <= m) by (nonlinear_arith)
        requires
            1 <= b && 0 <= m && -(m * b) <= a <= m * b && -b < 2 * (b * r - a) <= b,
    ;
}

/// Scaling up by `p/q` with rounding, then back down by `q/p` with rounding,
/// recovers the original value whenever the factor exceeds one (`q < p`).
pub proof fn lemma_div_round_round_trip(v: int, p: int, q: int)
    requires
        1 <= q < p,
    ensures
        div_round_spec(div_round_spec(v * p, q) * q, p) == v,
{
    let t = div_round_spec(v * p, q);
    let r = div_round_spec(t * q, p);
    lemma_div_round_err(v * p, q);
    lemma_div_round_err(t * q, p);
    assert(-q < 2 * (q * t - v * p) <= q);
    assert(-p < 2 * (p * r - t * q) <= p);
    assert(q * t == t * q) by (nonlinear_arith);
    assert(-(p + q) < 2 * (p * r - v * p) <= p + q);
    assert(2 * (p * r - v * p) == 2 * p * (r - v)) by (nonlinear_arith);
    assert(-(2 * p) < 2 * p * (r - v) < 2 * p);
    assert(r == v) by (nonlinear_arith)
        requires
            1 <= p && -(2 * p) < 2 * p * (r - v) < 2 * p,
    ;
}

/// Largest milli-unit magnitude accepted by measurement constructors; keeps
/// every tick computation inside `i64`.
pub const MEASURE_INPUT_MAX: i64 = 1_000_000_000_000;

/// Largest tick magnitude any measurement type stores; leaves room for the
/// offsets subtracted by accessors.
pub const TICKS_MAX: i64 = 5_000_000_000_000_000_000;

/// Largest magnitude accepted by `div_round` to keep the doubled dividend
/// within `i128`.
pub const DIV_ROUND_LIMIT: i128 = 0x1000_0000_0000_0000_0000_0000_0000_0000;

/// Rounding division on `i128`, for positive divisors.
pub fn div_round_i128(a: i128, b: i128) -> (r: i128)
    requires
        1 <= b <= DIV_ROUND_LIMIT,
        -DIV_ROUND_LIMIT <= a <= DIV_ROUND_LIMIT,
    ensures
        r == div_round_spec(a as int, b as int),
{
    proof {
        lemma_div_round_range(a as int, b as int);
    }
    if a >= 0 {
        let num: u128 = 2 * (a as u128) + (b as u128);
        let den: u128 = 2 * (b as u128);
        let q: u128 = num / den;
        proof {
            lemma_div_round_range(num as int, den as int);
        }
        q as i128
    } else {
        // For a < 0 write m = -a; the rounded quotient is -ceil((2m - b) / (2b)),
        // or 0 when 2m <= b.
        let m: u128 = (-a) as u128;
        let bb: u128 = b as u128;
        if 2 * m <= bb {
            proof {
                vstd::arithmetic::div_mod::lemma_basic_div(2 * a + b, 2 * b);
            }
            0
        } else {
            let x: u128 = 2 * m - bb;
            let d: u128 = 2 * bb;
            let qc: u128 = (x + (d - 1)) / d;
            proof {
                let xi = x as int;
                let di = d as int;
                let qi = ((x + (d - 1)) as int) / di;
                lemma_fundamental_div_mod(xi + di - 1, di);
                vstd::arithmetic::div_mod::lemma_mod_bound(xi + di - 1, di);
                let rc = (xi + di - 1) % di;
                assert(di * qi == xi + di - 1 - rc);
                let s = di - 1 - rc;
                assert(0 <= s < di);
                assert(-xi == di * (-qi) + s) by (nonlinear_arith)
                    requires
                        di * qi == xi + di - 1 - rc && s == di - 1 - rc,
                ;
                assert((-qi) * di + s == di * (-qi) + s) by (nonlinear_arith);
                lemma_fundamental_div_mod_converse_div(-xi, di, -qi, s);
                assert((-xi) / di == -qi);
                assert(2 * a + b == -xi);
                assert(qi <= (-a) as int) by {
                    lemma_div_round_range(a as int, b as int);
                }
            }
            let r128: i128 = -(qc as i128);
            r128
        }
    }
}

/// Rounding division on `u64`, for positive divisors.
pub fn div_round_u64(a: u64, b: u64) -> (r: u64)
    requires
        1 <= b,
    ensures
        r == div_round_spec(a as int, b as int),
        r <= a,
{
    let num: u128 = 2 * (a as u128) + (b as u128);
    let den: u128 = 2 * (b as u128);
    let q: u128 = num / den;
    proof {
        lemma_div_round_range(a as int, b as int);
    }
    q as u64
}

/// Rounding division on `i64`, for positive divisors.
pub fn div_round(a: i64, b: i64) -> (r: i64)
    requires
        1 <= b,
    ensures
        r == div_round_spec(a as int, b as int),
        a >= 0 ==> 0 <= r <= a,
        a < 0 ==> a <= r <= 0,
{
    proof {
        lemma_div_round_range(a as int, b as int);
    }
    let r = div_round_i128(a as i128, b as i128);
    r as i64
}

} // verus!
