//! Fixed-point sine and cosine on the channel scale, for gradient angles.
//!
//! Arguments are radians in fixed point (`CHANNEL_SCALE` units per radian)
//! and stay within `[-2, 2]` after the caller's range reduction, so a short
//! alternating series evaluated by Horner's rule is accurate to a few
//! fixed-point units — far below anything a rendered gradient could show.

use vstd::prelude::*;
use crate::fixed::fp_mul;
use crate::fixed::lemma_rdiv_bound;
use crate::fixed::rdiv64;
use crate::fixed::spec_fp_mul;
use crate::fixed::spec_rdiv64;
use crate::rgba::CHANNEL_SCALE;

verus! {

/// One Horner step of the alternating series: `1 - (x2 * u) / c`, on the
/// fixed-point scale.
pub open spec fn spec_horner_step(x2: int, u: int, c: int) -> int {
    CHANNEL_SCALE - spec_rdiv64(spec_fp_mul(x2, u), c)
}

/// The fixed-point sine series:
/// `x * (1 - x^2/6 * (1 - x^2/20 * (1 - x^2/42 * (1 - x^2/72 * (1 - x^2/110 * (1 - x^2/156))))))`.
pub open spec fn spec_sin(x: int) -> int {
    let x2 = spec_fp_mul(x, x);
    let u6 = spec_horner_step(x2, CHANNEL_SCALE as int, 156);
    let u5 = spec_horner_step(x2, u6, 110);
    let u4 = spec_horner_step(x2, u5, 72);
    let u3 = spec_horner_step(x2, u4, 42);
    let u2 = spec_horner_step(x2, u3, 20);
    let u1 = spec_horner_step(x2, u2, 6);
    spec_fp_mul(x, u1)
}

/// The fixed-point cosine series:
/// `1 - x^2/2 * (1 - x^2/12 * (1 - x^2/30 * (1 - x^2/56 * (1 - x^2/90 * (1 - x^2/132)))))`.
pub open spec fn spec_cos(x: int) -> int {
    let x2 = spec_fp_mul(x, x);
    let v5 = spec_horner_step(x2, CHANNEL_SCALE as int, 132);
    let v4 = spec_horner_step(x2, v5, 90);
    let v3 = spec_horner_step(x2, v4, 56);
    let v2 = spec_horner_step(x2, v3, 30);
    let v1 = spec_horner_step(x2, v2, 12);
    spec_horner_step(x2, v1, 2)
}

/// One Horner step. `ub` bounds the inner polynomial value that came in;
/// the result is bounded by `1 + 3 * ub` on the same scale.
fn horner_step(x2: i64, u: i64, c: i64, Ghost(ub): Ghost<int>) -> (r: i64)
    requires
        -5 * CHANNEL_SCALE <= x2 <= 5 * CHANNEL_SCALE,
        0 < ub <= 2000 * CHANNEL_SCALE,
        -ub <= u <= ub,
        2 <= c <= 200,
    ensures
        r as int == spec_horner_step(x2 as int, u as int, c as int),
        -(CHANNEL_SCALE + 3 * ub) <= r <= CHANNEL_SCALE + 3 * ub,
{
    proof {
        assert(-((5 * ub) * CHANNEL_SCALE) <= (x2 as int) * u <= (5 * ub)
            * CHANNEL_SCALE) by (nonlinear_arith)
            requires
                -5 * CHANNEL_SCALE <= x2 <= 5 * CHANNEL_SCALE && -ub <= u <= ub && 0 < ub
                    && CHANNEL_SCALE == 2_550_000_000,
        ;
        lemma_rdiv_bound((x2 as int) * u, CHANNEL_SCALE as int, 5 * ub);
    }
    let w = fp_mul(x2, u);
    proof {
        assert(-((3 * ub) * c) <= w as int <= (3 * ub) * c) by (nonlinear_arith)
            requires
                -5 * ub <= w <= 5 * ub && 2 <= c <= 200 && 0 < ub,
        ;
        lemma_rdiv_bound(w as int, c as int, 3 * ub);
    }
    let w2 = rdiv64(w, c);
    CHANNEL_SCALE - w2
}

/// Fixed-point sine of a radian value in `[-2, 2]`.
pub fn sin_fp(x: i64) -> (r: i64)
    requires
        -2 * CHANNEL_SCALE <= x <= 2 * CHANNEL_SCALE,
    ensures
        r as int == spec_sin(x as int),
        -2200 * CHANNEL_SCALE <= r <= 2200 * CHANNEL_SCALE,
{
    proof {
        assert(-((5 * CHANNEL_SCALE as int) * CHANNEL_SCALE) <= (x as int) * x <= (5
            * CHANNEL_SCALE as int) * CHANNEL_SCALE) by (nonlinear_arith)
            requires
                -2 * CHANNEL_SCALE <= x <= 2 * CHANNEL_SCALE && CHANNEL_SCALE == 2_550_000_000,
        ;
        lemma_rdiv_bound((x as int) * x, CHANNEL_SCALE as int, 5 * CHANNEL_SCALE as int);
    }
    let x2 = fp_mul(x, x);
    let u6 = horner_step(x2, CHANNEL_SCALE, 156, Ghost(CHANNEL_SCALE as int));
    let u5 = horner_step(x2, u6, 110, Ghost(4 * CHANNEL_SCALE as int));
    let u4 = horner_step(x2, u5, 72, Ghost(13 * CHANNEL_SCALE as int));
    let u3 = horner_step(x2, u4, 42, Ghost(40 * CHANNEL_SCALE as int));
    let u2 = horner_step(x2, u3, 20, Ghost(121 * CHANNEL_SCALE as int));
    let u1 = horner_step(x2, u2, 6, Ghost(364 * CHANNEL_SCALE as int));
    proof {
        assert(-((2200 * CHANNEL_SCALE as int) * CHANNEL_SCALE) <= (x as int) * u1 <= (2200
            * CHANNEL_SCALE as int) * CHANNEL_SCALE) by (nonlinear_arith)
            requires
                -2 * CHANNEL_SCALE <= x <= 2 * CHANNEL_SCALE && -1093 * CHANNEL_SCALE <= u1 <= 1093
                    * CHANNEL_SCALE && CHANNEL_SCALE == 2_550_000_000,
        ;
        lemma_rdiv_bound((x as int) * u1, CHANNEL_SCALE as int, 2200 * CHANNEL_SCALE as int);
    }
    fp_mul(x, u1)
}

/// Fixed-point cosine of a radian value in `[-2, 2]`.
pub fn cos_fp(x: i64) -> (r: i64)
    requires
        -2 * CHANNEL_SCALE <= x <= 2 * CHANNEL_SCALE,
    ensures
        r as int == spec_cos(x as int),
        -1100 * CHANNEL_SCALE <= r <= 1100 * CHANNEL_SCALE,
{
    proof {
        assert(-((5 * CHANNEL_SCALE as int) * CHANNEL_SCALE) <= (x as int) * x <= (5
            * CHANNEL_SCALE as int) * CHANNEL_SCALE) by (nonlinear_arith)
            requires
                -2 * CHANNEL_SCALE <= x <= 2 * CHANNEL_SCALE && CHANNEL_SCALE == 2_550_000_000,
        ;
        lemma_rdiv_bound((x as int) * x, CHANNEL_SCALE as int, 5 * CHANNEL_SCALE as int);
    }
    let x2 = fp_mul(x, x);
    let v5 = horner_step(x2, CHANNEL_SCALE, 132, Ghost(CHANNEL_SCALE as int));
    let v4 = horner_step(x2, v5, 90, Ghost(4 * CHANNEL_SCALE as int));
    let v3 = horner_step(x2, v4, 56, Ghost(13 * CHANNEL_SCALE as int));
    let v2 = horner_step(x2, v3, 30, Ghost(40 * CHANNEL_SCALE as int));
    let v1 = horner_step(x2, v2, 12, Ghost(121 * CHANNEL_SCALE as int));
    horner_step(x2, v1, 2, Ghost(364 * CHANNEL_SCALE as int))
}

} // verus!
