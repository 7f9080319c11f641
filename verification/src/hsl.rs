//! The HSL lightness transform behind `darken()` and `lighten()`.
//!
//! A colour is converted to hue, saturation and lightness with the standard
//! min/max/delta formulas, its lightness is shifted by a proportion of its
//! current value (`l' = l - l * pct / 100` for darken, `+` for lighten), and
//! the result is converted back through the standard chroma/hue-sector
//! formula, the final channels clamped to the valid range. A shift of zero
//! leaves the colour exactly unchanged.
//!
//! Hue is a fixed-point degree value in `[0, 360 * CHANNEL_SCALE]`;
//! saturation and lightness are fixed-point fractions on the channel scale.

use vstd::prelude::*;
use crate::fixed::FP_ARG_BOUND;
use crate::fixed::emod;
use crate::fixed::fp_div;
use crate::fixed::fp_mul;
use crate::fixed::lemma_rdiv_bound;
use crate::fixed::rdiv64;
use crate::fixed::spec_emod;
use crate::fixed::spec_fp_div;
use crate::fixed::spec_fp_mul;
use crate::fixed::spec_rdiv;
use crate::fixed::spec_rdiv64;
use crate::rgba::CHANNEL_SCALE;
use crate::rgba::Rgba;
use crate::rgba::clamp_channel;
use crate::rgba::spec_clamp_channel;

verus! {

/// Bound accepted for the `percentage` argument of [`darken`] and
/// [`lighten`]: a billion percent, in hundred-thousandths of a percent.
pub const PCT_BOUND: i64 = 100_000_000_000_000;

/// Fixed-point units of `percentage` per unit of lightness proportion:
/// `100 * 10^5` (one hundred percent, each percent in hundred-thousandths).
pub const PCT_UNIT: i64 = 10_000_000;

/// Bound on the shift of lightness a valid percentage can produce.
pub const DL_BOUND: i64 = 26_000_000_000_000_000;

/// Bound on the lightness a shift can produce.
pub const L_BOUND: i64 = 30_000_000_000_000_000;

/// Bound on the chroma values the back-conversion can produce.
pub const C_BOUND: i64 = 200_000_000_000_000_000;

/// A colour in hue/saturation/lightness form, with its alpha carried along.
#[derive(Debug, Clone, Copy, PartialEq, Eq, Structural)]
pub struct Hsla {
    /// Hue, in fixed-point degrees: `[0, 360 * CHANNEL_SCALE]`.
    pub h: i64,
    /// Saturation, as a fixed-point fraction of `CHANNEL_SCALE`.
    pub s: i64,
    /// Lightness, as a fixed-point fraction of `CHANNEL_SCALE`.
    pub l: i64,
    /// Alpha, unchanged by the transform.
    pub a: i64,
}

/// `|x|`.
pub open spec fn spec_abs(x: int) -> int {
    if x < 0 {
        -x
    } else {
        x
    }
}

/// The hue, saturation and lightness of `c`, by the standard min/max/delta
/// formulas on the fixed-point scale: lightness is the rounded mean of the
/// extreme channels, saturation is `delta / (1 - |2l - 1|)` (zero for
/// grayscale and for extreme lightness), and hue is the sector formula
/// scaled to degrees, wrapped into `[0, 360)`.
pub open spec fn spec_hsl_of(c: Rgba) -> (int, int, int) {
    let r = c.r as int;
    let g = c.g as int;
    let b = c.b as int;
    let sc = CHANNEL_SCALE as int;
    let mx = if r >= g && r >= b {
        r
    } else if g >= b {
        g
    } else {
        b
    };
    let mn = if r <= g && r <= b {
        r
    } else if g <= b {
        g
    } else {
        b
    };
    let delta = mx - mn;
    let l = spec_rdiv(mx + mn, 2);
    if delta == 0 {
        (0, 0, l)
    } else {
        let h0 = if mx == r {
            spec_fp_div(g - b, delta)
        } else if mx == g {
            spec_fp_div(b - r, delta) + 2 * sc
        } else {
            spec_fp_div(r - g, delta) + 4 * sc
        };
        let s = if l == 0 || l == sc {
            0
        } else {
            spec_fp_div(delta, sc - spec_abs(2 * l - sc))
        };
        let h1 = h0 * 60;
        let h = if h1 < 0 {
            h1 + 360 * sc
        } else {
            h1
        };
        (h, s, l)
    }
}

/// The colour channels of the hue/saturation/lightness triple, by the
/// standard chroma/hue-sector formula on the fixed-point scale, each channel
/// clamped into the valid range.
pub open spec fn spec_rgb_of_hsl(h: int, s: int, l: int) -> (int, int, int) {
    let sc = CHANNEL_SCALE as int;
    let c = spec_fp_mul(sc - spec_abs(2 * l - sc), s);
    let t0 = spec_rdiv64(h, 60);
    let t1 = spec_emod(t0, 2 * sc);
    let t2 = sc - spec_abs(t1 - sc);
    let x = spec_fp_mul(c, t2);
    let m = l - spec_rdiv64(c, 2);
    let rgb = if h < 60 * sc {
        (c, x, 0)
    } else if h < 120 * sc {
        (x, c, 0)
    } else if h < 180 * sc {
        (0, c, x)
    } else if h < 240 * sc {
        (0, x, c)
    } else if h < 300 * sc {
        (x, 0, c)
    } else {
        (c, 0, x)
    };
    (
        spec_clamp_channel(rgb.0 + m),
        spec_clamp_channel(rgb.1 + m),
        spec_clamp_channel(rgb.2 + m),
    )
}

/// The lightness shift: `round(l * pct / (100%))`.
pub open spec fn spec_lightness_shift(l: int, pct: int) -> int {
    spec_rdiv(l * pct, PCT_UNIT as int)
}

/// What [`darken`] (`darkening` true) and [`lighten`] (`darkening` false)
/// return: the colour with its lightness shifted by `pct` of itself and the
/// alpha kept. A shift that rounds to zero leaves the colour exactly as it
/// was.
pub open spec fn spec_shift_lightness(c: Rgba, pct: int, darkening: bool) -> (int, int, int, int) {
    let hsl = spec_hsl_of(c);
    let dl = spec_lightness_shift(hsl.2, pct);
    if dl == 0 {
        (c.r as int, c.g as int, c.b as int, c.a as int)
    } else {
        let l2 = if darkening {
            hsl.2 - dl
        } else {
            hsl.2 + dl
        };
        let rgb = spec_rgb_of_hsl(hsl.0, hsl.1, l2);
        (rgb.0, rgb.1, rgb.2, c.a as int)
    }
}

/// Converts a colour to hue/saturation/lightness form.
pub fn to_hsla(color: &Rgba) -> (hs: Hsla)
    requires
        color.wf(),
    ensures
        (hs.h as int, hs.s as int, hs.l as int) == spec_hsl_of(*color),
        hs.a == color.a,
        0 <= hs.h <= 360 * CHANNEL_SCALE,
        0 <= hs.s <= 2 * CHANNEL_SCALE,
        0 <= hs.l <= CHANNEL_SCALE,
{
    let r = color.r;
    let g = color.g;
    let b = color.b;
    let mx = if r >= g && r >= b {
        r
    } else if g >= b {
        g
    } else {
        b
    };
    let mn = if r <= g && r <= b {
        r
    } else if g <= b {
        g
    } else {
        b
    };
    let delta = mx - mn;
    proof {
        lemma_rdiv_bound((mx + mn) as int, 2, CHANNEL_SCALE as int);
    }
    let l = rdiv64(mx + mn, 2);
    if delta == 0 {
        Hsla { h: 0, s: 0, l, a: color.a }
    } else {
        let h0: i64 = if mx == r {
            proof {
                assert(-((CHANNEL_SCALE as int) * delta) <= (g - b) * CHANNEL_SCALE <= (
                CHANNEL_SCALE as int) * delta) by (nonlinear_arith)
                    requires
                        -delta <= g - b <= delta && 0 < delta && CHANNEL_SCALE == 2_550_000_000,
                ;
                lemma_rdiv_bound((g - b) * CHANNEL_SCALE, delta as int, CHANNEL_SCALE as int);
            }
            fp_div(g - b, delta)
        } else if mx == g {
            proof {
                assert(-((CHANNEL_SCALE as int) * delta) <= (b - r) * CHANNEL_SCALE <= (
                CHANNEL_SCALE as int) * delta) by (nonlinear_arith)
                    requires
                        -delta <= b - r <= delta && 0 < delta && CHANNEL_SCALE == 2_550_000_000,
                ;
                lemma_rdiv_bound((b - r) * CHANNEL_SCALE, delta as int, CHANNEL_SCALE as int);
            }
            fp_div(b - r, delta) + 2 * CHANNEL_SCALE
        } else {
            proof {
                assert(-((CHANNEL_SCALE as int) * delta) <= (r - g) * CHANNEL_SCALE <= (
                CHANNEL_SCALE as int) * delta) by (nonlinear_arith)
                    requires
                        -delta <= r - g <= delta && 0 < delta && CHANNEL_SCALE == 2_550_000_000,
                ;
                lemma_rdiv_bound((r - g) * CHANNEL_SCALE, delta as int, CHANNEL_SCALE as int);
            }
            fp_div(r - g, delta) + 4 * CHANNEL_SCALE
        };
        let s: i64 = if l == 0 || l == CHANNEL_SCALE {
            0
        } else {
            let d0 = CHANNEL_SCALE - if 2 * l - CHANNEL_SCALE < 0 {
                -(2 * l - CHANNEL_SCALE)
            } else {
                2 * l - CHANNEL_SCALE
            };
            proof {
                assert(delta <= d0 + 1);
                assert((delta as int) * CHANNEL_SCALE <= (2 * CHANNEL_SCALE as int) * d0
                    && -((2 * CHANNEL_SCALE as int) * d0) <= (delta as int) * CHANNEL_SCALE)
                    by (nonlinear_arith)
                    requires
                        0 <= delta <= d0 + 1 && 1 <= d0 && CHANNEL_SCALE == 2_550_000_000,
                ;
                lemma_rdiv_bound(
                    (delta as int) * CHANNEL_SCALE,
                    d0 as int,
                    2 * CHANNEL_SCALE as int,
                );
            }
            fp_div(delta, d0)
        };
        let h1 = h0 * 60;
        let h = if h1 < 0 {
            h1 + 360 * CHANNEL_SCALE
        } else {
            h1
        };
        Hsla { h, s, l, a: color.a }
    }
}

/// Converts a hue/saturation/lightness form back to colour channels,
/// clamping each into the valid range; the alpha passes through.
pub fn from_hsla(hs: Hsla) -> (c: Rgba)
    requires
        0 <= hs.h <= 360 * CHANNEL_SCALE,
        0 <= hs.s <= 3 * CHANNEL_SCALE,
        -L_BOUND <= hs.l <= L_BOUND,
        0 <= hs.a <= CHANNEL_SCALE,
    ensures
        (c.r as int, c.g as int, c.b as int) == spec_rgb_of_hsl(
            hs.h as int,
            hs.s as int,
            hs.l as int,
        ),
        c.a == hs.a,
        c.wf(),
{
    let tc: i64 = CHANNEL_SCALE - if 2 * hs.l - CHANNEL_SCALE < 0 {
        -(2 * hs.l - CHANNEL_SCALE)
    } else {
        2 * hs.l - CHANNEL_SCALE
    };
    proof {
        assert(-(FP_ARG_BOUND as int) <= tc <= FP_ARG_BOUND as int);
        assert(-((C_BOUND as int) * CHANNEL_SCALE) <= (tc as int) * hs.s <= (C_BOUND as int)
            * CHANNEL_SCALE) by (nonlinear_arith)
            requires
                -(2 * L_BOUND as int + 2 * CHANNEL_SCALE as int) <= tc <= 2 * L_BOUND as int + 2
                    * CHANNEL_SCALE as int && 0 <= hs.s <= 3 * CHANNEL_SCALE && CHANNEL_SCALE
                    == 2_550_000_000 && L_BOUND == 30_000_000_000_000_000 && C_BOUND
                    == 200_000_000_000_000_000,
        ;
        lemma_rdiv_bound((tc as int) * hs.s, CHANNEL_SCALE as int, C_BOUND as int);
    }
    let c0 = fp_mul(tc, hs.s);
    let t0 = rdiv64(hs.h, 60);
    let t1 = emod(t0, 2 * CHANNEL_SCALE);
    let t2 = CHANNEL_SCALE - if t1 - CHANNEL_SCALE < 0 {
        -(t1 - CHANNEL_SCALE)
    } else {
        t1 - CHANNEL_SCALE
    };
    proof {
        assert(-((C_BOUND as int) * CHANNEL_SCALE) <= (c0 as int) * t2 <= (C_BOUND as int)
            * CHANNEL_SCALE) by (nonlinear_arith)
            requires
                -C_BOUND <= c0 <= C_BOUND && 0 <= t2 <= CHANNEL_SCALE && CHANNEL_SCALE
                    == 2_550_000_000 && C_BOUND == 200_000_000_000_000_000,
        ;
        lemma_rdiv_bound((c0 as int) * t2, CHANNEL_SCALE as int, C_BOUND as int);
        lemma_rdiv_bound(c0 as int, 2, C_BOUND as int);
    }
    let x0 = fp_mul(c0, t2);
    let m = hs.l - rdiv64(c0, 2);
    let sc = CHANNEL_SCALE;
    let (r0, g0, b0): (i64, i64, i64) = if hs.h < 60 * sc {
        (c0, x0, 0)
    } else if hs.h < 120 * sc {
        (x0, c0, 0)
    } else if hs.h < 180 * sc {
        (0, c0, x0)
    } else if hs.h < 240 * sc {
        (0, x0, c0)
    } else if hs.h < 300 * sc {
        (x0, 0, c0)
    } else {
        (c0, 0, x0)
    };
    Rgba {
        r: clamp_channel(r0 + m),
        g: clamp_channel(g0 + m),
        b: clamp_channel(b0 + m),
        a: hs.a,
    }
}

/// Shifts the lightness of `color` by `percentage` of its current value;
/// `darkening` selects the direction.
fn shift_lightness(color: &Rgba, percentage: i64, darkening: bool) -> (c: Rgba)
    requires
        color.wf(),
        -PCT_BOUND <= percentage <= PCT_BOUND,
    ensures
        (c.r as int, c.g as int, c.b as int, c.a as int) == spec_shift_lightness(
            *color,
            percentage as int,
            darkening,
        ),
        c.wf(),
{
    let hs = to_hsla(color);
    proof {
        assert(-((DL_BOUND as int) * PCT_UNIT) <= (hs.l as int) * percentage <= (DL_BOUND as int)
            * PCT_UNIT) by (nonlinear_arith)
            requires
                0 <= hs.l <= CHANNEL_SCALE && -PCT_BOUND <= percentage <= PCT_BOUND
                    && CHANNEL_SCALE == 2_550_000_000 && PCT_BOUND == 100_000_000_000_000
                    && PCT_UNIT == 10_000_000 && DL_BOUND == 26_000_000_000_000_000,
        ;
        lemma_rdiv_bound((hs.l as int) * percentage, PCT_UNIT as int, DL_BOUND as int);
    }
    let p: i128 = (hs.l as i128) * (percentage as i128);
    let dl128 = crate::fixed::rdiv128(p, PCT_UNIT as i128);
    let dl: i64 = dl128 as i64;
    if dl == 0 {
        *color
    } else {
        let l2 = if darkening {
            hs.l - dl
        } else {
            hs.l + dl
        };
        from_hsla(Hsla { h: hs.h, s: hs.s, l: l2, a: hs.a })
    }
}

/// Darkens `color` by `percentage` percent of its current lightness.
/// `percentage` is given in hundred-thousandths of a percent, so `10%` is
/// `1_000_000`. Darkening by zero returns the colour exactly unchanged.
pub fn darken(color: &Rgba, percentage: i64) -> (c: Rgba)
    requires
        color.wf(),
        -PCT_BOUND <= percentage <= PCT_BOUND,
    ensures
        (c.r as int, c.g as int, c.b as int, c.a as int) == spec_shift_lightness(
            *color,
            percentage as int,
            true,
        ),
        c.wf(),
{
    shift_lightness(color, percentage, true)
}

/// Lightens `color` by `percentage` percent of its current lightness.
/// `percentage` is given in hundred-thousandths of a percent, so `10%` is
/// `1_000_000`. Lightening by zero returns the colour exactly unchanged.
pub fn lighten(color: &Rgba, percentage: i64) -> (c: Rgba)
    requires
        color.wf(),
        -PCT_BOUND <= percentage <= PCT_BOUND,
    ensures
        (c.r as int, c.g as int, c.b as int, c.a as int) == spec_shift_lightness(
            *color,
            percentage as int,
            false,
        ),
        c.wf(),
{
    shift_lightness(color, percentage, false)
}

/// Darkening by zero changes nothing: for every valid colour `c`,
/// `darken(c, 0)` is exactly `c` again.
pub proof fn lemma_darken_zero(c: Rgba)
    requires
        c.wf(),
    ensures
        spec_shift_lightness(c, 0, true) == (c.r as int, c.g as int, c.b as int, c.a as int),
{
    let l0 = spec_hsl_of(c).2;
    assert(l0 * 0 == 0);
    vstd::arithmetic::div_mod::lemma_fundamental_div_mod_converse(
        PCT_UNIT as int,
        2 * (PCT_UNIT as int),
        0,
        PCT_UNIT as int,
    );
    assert(spec_rdiv(0, PCT_UNIT as int) == 0);
}

/// Lightening by zero changes nothing: for every valid colour `c`,
/// `lighten(c, 0)` is exactly `c` again.
pub proof fn lemma_lighten_zero(c: Rgba)
    requires
        c.wf(),
    ensures
        spec_shift_lightness(c, 0, false) == (c.r as int, c.g as int, c.b as int, c.a as int),
{
    let l0 = spec_hsl_of(c).2;
    assert(l0 * 0 == 0);
    vstd::arithmetic::div_mod::lemma_fundamental_div_mod_converse(
        PCT_UNIT as int,
        2 * (PCT_UNIT as int),
        0,
        PCT_UNIT as int,
    );
    assert(spec_rdiv(0, PCT_UNIT as int) == 0);
}

} // verus!
