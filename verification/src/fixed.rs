//! Fixed-point arithmetic helpers.
//!
//! Quantities derived from colour channels (lightness, saturation, slopes,
//! angles) are held as `i64` values in units of `1 / CHANNEL_SCALE`.
//! Multiplication and division round half-up (`round(x) = floor(x + 1/2)`)
//! and saturate at the `i64` range; intermediates are computed in `i128`,
//! which the argument bounds keep exact.

use vstd::prelude::*;
use crate::rgba::CHANNEL_SCALE;

verus! {

/// Bound on the arguments of the fixed-point operations: comfortably above
/// every value the colour pipeline produces, and small enough that every
/// `i128` intermediate is exact.
pub const FP_ARG_BOUND: i64 = 0x4000_0000_0000_0000;

/// `floor(a / b + 1/2)`: division rounded half-up, for a positive divisor.
pub open spec fn spec_rdiv(a: int, b: int) -> int
    recommends
        b > 0,
{
    (2 * a + b) / (2 * b)
}

/// `x` saturated into the `i64` range.
pub open spec fn spec_sat64(x: int) -> int {
    if x > i64::MAX {
        i64::MAX as int
    } else if x < i64::MIN {
        i64::MIN as int
    } else {
        x
    }
}

/// The fixed-point product: `round(a * b / CHANNEL_SCALE)`, saturated.
pub open spec fn spec_fp_mul(a: int, b: int) -> int {
    spec_sat64(spec_rdiv(a * b, CHANNEL_SCALE as int))
}

/// The fixed-point quotient: `round(a * CHANNEL_SCALE / b)`, saturated.
pub open spec fn spec_fp_div(a: int, b: int) -> int
    recommends
        b != 0,
{
    if b > 0 {
        spec_sat64(spec_rdiv(a * CHANNEL_SCALE, b))
    } else {
        spec_sat64(spec_rdiv(-(a * CHANNEL_SCALE), -b))
    }
}

/// Division rounded half-up, saturated into the `i64` range.
pub open spec fn spec_rdiv64(a: int, b: int) -> int
    recommends
        b > 0,
{
    spec_sat64(spec_rdiv(a, b))
}

/// Division of `i128` values rounded half-up, for a positive divisor.
pub fn rdiv128(a: i128, b: i128) -> (r: i128)
    requires
        0 < b <= 0x8000_0000_0000_0000i128,
        -0x2000_0000_0000_0000_0000_0000_0000_0000i128 < a
            < 0x2000_0000_0000_0000_0000_0000_0000_0000i128,
    ensures
        r == spec_rdiv(a as int, b as int),
{
    let n: i128 = 2 * a + b;
    let d: i128 = 2 * b;
    if n >= 0 {
        let q: u128 = (n as u128) / (d as u128);
        proof {
            assert((n as u128) == n as int && (d as u128) == d as int);
            assert(q == n as int / d as int);
        }
        q as i128
    } else {
        let m: u128 = (-n) as u128;
        let q: u128 = (m + (d as u128) - 1) / (d as u128);
        proof {
            let ni = n as int;
            let di = d as int;
            let mi = m as int;
            assert(mi == -ni);
            let qq = (mi + di - 1) / di;
            assert(ni / di == -qq) by {
                let rr = (mi + di - 1) % di;
                vstd::arithmetic::div_mod::lemma_fundamental_div_mod(mi + di - 1, di);
                vstd::arithmetic::div_mod::lemma_mod_bound(mi + di - 1, di);
                assert(mi + di - 1 == di * qq + rr);
                assert(ni == di * (-qq) + (di - 1 - rr)) by (nonlinear_arith)
                    requires
                        mi == -ni && mi + di - 1 == di * qq + rr,
                ;
                assert(0 <= di - 1 - rr < di);
                vstd::arithmetic::div_mod::lemma_fundamental_div_mod_converse(
                    ni,
                    di,
                    -qq,
                    di - 1 - rr,
                );
            }
        }
        -(q as i128)
    }
}

/// `x` saturated into the `i64` range.
fn sat64(x: i128) -> (r: i64)
    ensures
        r as int == spec_sat64(x as int),
{
    if x > i64::MAX as i128 {
        i64::MAX
    } else if x < i64::MIN as i128 {
        i64::MIN
    } else {
        x as i64
    }
}

/// Fixed-point multiplication: `round(a * b / CHANNEL_SCALE)`, saturated.
pub fn fp_mul(a: i64, b: i64) -> (r: i64)
    requires
        -FP_ARG_BOUND <= a <= FP_ARG_BOUND,
        -FP_ARG_BOUND <= b <= FP_ARG_BOUND,
    ensures
        r as int == spec_fp_mul(a as int, b as int),
{
    proof {
        assert(-0x1000_0000_0000_0000_0000_0000_0000_0000i128 <= (a as i128) * (b as i128)
            <= 0x1000_0000_0000_0000_0000_0000_0000_0000i128) by (nonlinear_arith)
            requires
                -FP_ARG_BOUND <= a <= FP_ARG_BOUND && -FP_ARG_BOUND <= b <= FP_ARG_BOUND,
        ;
    }
    let p: i128 = (a as i128) * (b as i128);
    sat64(rdiv128(p, CHANNEL_SCALE as i128))
}

/// Fixed-point division: `round(a * CHANNEL_SCALE / b)`, saturated.
pub fn fp_div(a: i64, b: i64) -> (r: i64)
    requires
        -FP_ARG_BOUND <= a <= FP_ARG_BOUND,
        b != 0,
    ensures
        r as int == spec_fp_div(a as int, b as int),
{
    proof {
        assert(-0x1000_0000_0000_0000_0000_0000_0000_0000i128 <= (a as i128) * (
        CHANNEL_SCALE as i128) <= 0x1000_0000_0000_0000_0000_0000_0000_0000i128)
            by (nonlinear_arith)
            requires
                -FP_ARG_BOUND <= a <= FP_ARG_BOUND,
        ;
    }
    let p: i128 = (a as i128) * (CHANNEL_SCALE as i128);
    if b > 0 {
        sat64(rdiv128(p, b as i128))
    } else {
        let nb: i128 = -(b as i128);
        sat64(rdiv128(-p, nb))
    }
}

/// Division rounded half-up, saturated into the `i64` range.
pub fn rdiv64(a: i64, b: i64) -> (r: i64)
    requires
        0 < b,
    ensures
        r as int == spec_rdiv64(a as int, b as int),
{
    sat64(rdiv128(a as i128, b as i128))
}

/// Where `|a| <= c * b`, the rounded quotient `round(a / b)` lies in
/// `[-c, c]`; with it, magnitude bounds travel through the fixed-point
/// operations.
pub proof fn lemma_rdiv_bound(a: int, b: int, c: int)
    requires
        b > 0,
        0 <= c,
        -(c * b) <= a <= c * b,
    ensures
        -c <= spec_rdiv(a, b) <= c,
        spec_sat64(spec_rdiv(a, b)) == spec_rdiv(a, b) || c > i64::MAX,
{
    let cb = c * b;
    let n = 2 * a + b;
    let d = 2 * b;
    let q = n / d;
    vstd::arithmetic::div_mod::lemma_fundamental_div_mod(n, d);
    vstd::arithmetic::div_mod::lemma_mod_bound(n, d);
    let rr = n % d;
    assert(n <= 2 * cb + b);
    assert(n >= -(2 * cb) + b);
    assert(q <= c) by (nonlinear_arith)
        requires
            d * q + rr == n && 0 <= rr && n <= 2 * cb + b && cb == c * b && d == 2 * b && b > 0,
    ;
    assert(-c <= q) by (nonlinear_arith)
        requires
            d * q + rr == n && rr < d && n >= -(2 * cb) + b && cb == c * b && d == 2 * b && b > 0
                && 0 <= c,
    ;
}

/// The rounded quotient of a nonnegative value is nonnegative.
pub proof fn lemma_rdiv_nonneg(a: int, b: int)
    requires
        a >= 0,
        b > 0,
    ensures
        spec_rdiv(a, b) >= 0,
        spec_rdiv64(a, b) >= 0,
{
    let n = 2 * a + b;
    let d = 2 * b;
    vstd::arithmetic::div_mod::lemma_fundamental_div_mod(n, d);
    vstd::arithmetic::div_mod::lemma_mod_bound(n, d);
    let q = n / d;
    let rr = n % d;
    assert(q >= 0) by (nonlinear_arith)
        requires
            d * q + rr == n && rr < d && n >= d - b && d == 2 * b && b > 0,
    ;
}

/// The rounded quotient of zero is zero.
pub proof fn lemma_rdiv_zero(b: int)
    requires
        b > 0,
    ensures
        spec_rdiv(0, b) == 0,
        spec_rdiv64(0, b) == 0,
{
    vstd::arithmetic::div_mod::lemma_fundamental_div_mod_converse(b, 2 * b, 0, b);
}

/// The Euclidean remainder `a mod m`, always in `[0, m)`.
pub open spec fn spec_emod(a: int, m: int) -> int
    recommends
        m > 0,
{
    a % m
}

/// Euclidean remainder: the result is in `[0, m)` and differs from `a` by a
/// multiple of `m`.
pub fn emod(a: i64, m: i64) -> (r: i64)
    requires
        0 < m,
    ensures
        r == spec_emod(a as int, m as int),
        0 <= r < m,
{
    if a >= 0 {
        let q: u64 = (a as u64) % (m as u64);
        q as i64
    } else {
        let k: u64 = ((-(a as i128)) as u64) % (m as u64);
        proof {
            let ai = a as int;
            let mi = m as int;
            let ki = k as int;
            assert(ki == (-ai) % mi);
            vstd::arithmetic::div_mod::lemma_fundamental_div_mod(-ai, mi);
            let qq = (-ai) / mi;
            if ki == 0 {
                assert(ai == mi * (-qq) + 0) by (nonlinear_arith)
                    requires
                        -ai == mi * qq + ki && ki == 0,
                ;
                vstd::arithmetic::div_mod::lemma_fundamental_div_mod_converse(ai, mi, -qq, 0);
            } else {
                assert(ai == mi * (-qq - 1) + (mi - ki)) by (nonlinear_arith)
                    requires
                        -ai == mi * qq + ki,
                ;
                vstd::arithmetic::div_mod::lemma_fundamental_div_mod_converse(
                    ai,
                    mi,
                    -qq - 1,
                    mi - ki,
                );
            }
        }
        if k == 0 {
            0
        } else {
            m - (k as i64)
        }
    }
}

/// The truncated remainder, as `%` acts on machine numbers: the sign follows
/// the dividend.
pub open spec fn spec_tmod(a: int, m: int) -> int
    recommends
        m > 0,
{
    if a >= 0 {
        a % m
    } else {
        -((-a) % m)
    }
}

/// Truncated remainder: `|a| mod m`, with the sign of `a` put back.
pub fn tmod(a: i64, m: i64) -> (r: i64)
    requires
        0 < m,
    ensures
        r == spec_tmod(a as int, m as int),
        -m < r < m,
{
    if a >= 0 {
        let q: u64 = (a as u64) % (m as u64);
        q as i64
    } else {
        let k: u64 = ((-(a as i128)) as u64) % (m as u64);
        -(k as i64)
    }
}

} // verus!
