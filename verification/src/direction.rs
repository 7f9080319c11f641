//! The gradient direction resolver.
//!
//! A direction token is one of eight keyword phrases (`to right`,
//! `to left`, `to top`, `to bottom` and the four diagonals), or an angle
//! with the unit suffix `deg`, `grad`, `rad` or `turn`, or a bare number of
//! degrees. A keyword maps to a fixed start/end pair on the unit square.
//! An angle is resolved by line geometry: the gradient progresses along the
//! line through the square's centre with slope `tan(-angle)`, and the start
//! and end points are where that line leaves the unit square, picked on the
//! left or the right half according to the angle's half-turn. An angle
//! whose magnitude is exactly 90 or 270 degrees modulo 360 degenerates to a
//! vertical progression: the slope saturates instead of dividing by a
//! vanishing cosine.
//!
//! Coordinates are fixed-point fractions of the unit square
//! (`CHANNEL_SCALE` is 1).

use vstd::prelude::*;
use vstd::string::StrSliceExecFns;
use vstd::string::StringSliceAdditionalSpecFns;
use crate::error::WinColorError;
use crate::fixed::lemma_rdiv_bound;
use crate::fixed::fp_div;
use crate::fixed::fp_mul;
use crate::fixed::rdiv64;
use crate::fixed::rdiv128;
use crate::fixed::spec_fp_div;
use crate::fixed::spec_fp_mul;
use crate::fixed::spec_rdiv;
use crate::fixed::spec_rdiv64;
use crate::fixed::spec_tmod;
use crate::fixed::tmod;
use crate::num::NUM_BOUND;
use crate::num::parse_number;
use crate::num::spec_parse_number;
use crate::rgba::CHANNEL_SCALE;
use crate::rgba::spec_clamp_channel;
use crate::rgba::clamp_channel;

verus! {

/// The saturated slope of a vertical gradient-progression line.
pub const SLOPE_MAX: i64 = 2_550_000_000_000_000_000;

/// Fixed-point units of angle per `deg` unit: `CHANNEL_SCALE / 10^5`.
pub const DEG_UNIT: i64 = 25_500;

/// Fixed-point radians per fixed-point degree: `round(pi / 180 * CHANNEL_SCALE)`.
pub const RAD_PER_DEG: i64 = 44_505_896;

/// Scaled degrees per radian: `round(180 / pi * 25_500 * 10^6)`.
pub const DEG_PER_RAD_NUM: i64 = 1_461_042_377_583;

/// The start and end points of a linear gradient, as fixed-point fractions
/// of the bounding box (`CHANNEL_SCALE` is the full side).
#[derive(Debug, Clone, Copy)]
pub struct GradientCoordinates {
    /// The `[x, y]` start point.
    pub start: [i64; 2],
    /// The `[x, y]` end point.
    pub end: [i64; 2],
}

impl PartialEq for GradientCoordinates {
    fn eq(&self, other: &Self) -> (r: bool) {
        self.start[0] == other.start[0] && self.start[1] == other.start[1] && self.end[0]
            == other.end[0] && self.end[1] == other.end[1]
    }
}

impl vstd::std_specs::cmp::PartialEqSpecImpl for GradientCoordinates {
    open spec fn obeys_eq_spec() -> bool {
        true
    }

    open spec fn eq_spec(&self, other: &Self) -> bool {
        self.start[0] == other.start[0] && self.start[1] == other.start[1] && self.end[0]
            == other.end[0] && self.end[1] == other.end[1]
    }
}

impl GradientCoordinates {
    /// Every coordinate lies on the unit square.
    pub open spec fn wf(&self) -> bool {
        &&& 0 <= self.start[0] <= CHANNEL_SCALE
        &&& 0 <= self.start[1] <= CHANNEL_SCALE
        &&& 0 <= self.end[0] <= CHANNEL_SCALE
        &&& 0 <= self.end[1] <= CHANNEL_SCALE
    }
}

/// Whether `s` ends with `t`.
pub open spec fn spec_ends_with(s: Seq<u8>, t: Seq<u8>) -> bool {
    s.len() >= t.len() && s.subrange(s.len() - t.len(), s.len() as int) == t
}

/// The reduced angle of the token `s`, in fixed-point degrees strictly
/// between plus and minus 360: the number with `deg` taken as is, `grad`
/// scaled by 360/400, `rad` by 180/pi, `turn` by 360, a bare number as
/// degrees, each reduced modulo 360 with the sign kept.
pub open spec fn spec_parse_angle(s: Seq<u8>) -> Option<int> {
    let whole = 360 * CHANNEL_SCALE as int;
    if spec_ends_with(s, seq![100u8, 101u8, 103u8]) {
        match spec_parse_number(s.subrange(0, s.len() - 3)) {
            Some(v) => Some(spec_tmod(v * DEG_UNIT, whole)),
            None => None,
        }
    } else if spec_ends_with(s, seq![103u8, 114u8, 97u8, 100u8]) {
        match spec_parse_number(s.subrange(0, s.len() - 4)) {
            Some(v) => Some(spec_tmod(v * 22_950, whole)),
            None => None,
        }
    } else if spec_ends_with(s, seq![114u8, 97u8, 100u8]) {
        match spec_parse_number(s.subrange(0, s.len() - 3)) {
            Some(v) => Some(spec_tmod(spec_rdiv(v * DEG_PER_RAD_NUM, 1_000_000), whole)),
            None => None,
        }
    } else if spec_ends_with(s, seq![116u8, 117u8, 114u8, 110u8]) {
        match spec_parse_number(s.subrange(0, s.len() - 4)) {
            Some(v) => Some(spec_tmod(spec_tmod(v, 100_000) * 9_180_000, whole)),
            None => None,
        }
    } else {
        match spec_parse_number(s) {
            Some(v) => Some(spec_tmod(v * DEG_UNIT, whole)),
            None => None,
        }
    }
}

/// `v` clamped to the saturated slope range.
pub open spec fn spec_clamp_slope(v: int) -> int {
    if v > SLOPE_MAX {
        SLOPE_MAX as int
    } else if v < -SLOPE_MAX {
        -SLOPE_MAX as int
    } else {
        v
    }
}

/// The slope of the gradient-progression line for the reduced angle `a`:
/// saturated for the vertical degeneracy (90 or 270 degrees in magnitude),
/// otherwise `sin/cos` of `-a` brought into the open interval
/// `(-90, 90)` degrees, the quotient clamped.
pub open spec fn spec_slope_of_angle(a: int) -> int {
    let sc = CHANNEL_SCALE as int;
    let aa = if a < 0 {
        -a
    } else {
        a
    };
    if aa == 90 * sc || aa == 270 * sc {
        if a >= 0 {
            SLOPE_MAX as int
        } else {
            -SLOPE_MAX as int
        }
    } else {
        let ar = spec_tmod(a, 180 * sc);
        let ar2 = if ar > 90 * sc {
            ar - 180 * sc
        } else if ar < -90 * sc {
            ar + 180 * sc
        } else {
            ar
        };
        let xr = spec_fp_mul(ar2, -RAD_PER_DEG as int);
        let sv = crate::trig::spec_sin(xr);
        let cv = crate::trig::spec_cos(xr);
        if cv == 0 {
            if sv >= 0 {
                SLOPE_MAX as int
            } else {
                -SLOPE_MAX as int
            }
        } else {
            spec_clamp_slope(spec_fp_div(sv, cv))
        }
    }
}

/// The point where the line `y = m x + b` meets the unit square at or near
/// the sample abscissa `x`: the line's own point where its ordinate is in
/// range, else the crossing with the top or the bottom edge.
pub open spec fn spec_point_on_line(m: int, b: int, x: int) -> (int, int) {
    let sc = CHANNEL_SCALE as int;
    let y = spec_fp_mul(m, x) + b;
    if 0 <= y <= sc {
        (x, y)
    } else if y > sc {
        (spec_clamp_channel(spec_fp_div(sc - b, m)), sc)
    } else {
        (spec_clamp_channel(spec_fp_div(-b, m)), 0)
    }
}

/// The start and end points for the reduced angle `a`: the line through the
/// square's centre with slope [`spec_slope_of_angle`], sampled at the left
/// and right edges in the order the angle's half-turn picks.
pub open spec fn spec_coordinates_of_angle(a: int) -> ((int, int), (int, int)) {
    let sc = CHANNEL_SCALE as int;
    let m = spec_slope_of_angle(a);
    let b = spec_rdiv64(-m, 2) + sc / 2;
    let aa = if a < 0 {
        -a
    } else {
        a
    };
    let xs = if aa < 90 * sc {
        (0, sc)
    } else if aa < 270 * sc {
        (sc, 0)
    } else {
        (0, sc)
    };
    (spec_point_on_line(m, b, xs.0), spec_point_on_line(m, b, xs.1))
}

/// What resolving the direction token `s` yields: the coordinates of its
/// angle where `s` reads as an angle; else the keyword table, with start
/// and end antipodal on the unit square; else nothing.
pub open spec fn spec_resolve_direction(s: Seq<u8>) -> Option<((int, int), (int, int))> {
    let sc = CHANNEL_SCALE as int;
    let half = sc / 2;
    match spec_parse_angle(s) {
        Some(a) => Some(spec_coordinates_of_angle(a)),
        None => {
            if s == seq![116u8, 111u8, 32u8, 114u8, 105u8, 103u8, 104u8, 116u8] {
                Some(((0, half), (sc, half)))
            } else if s == seq![116u8, 111u8, 32u8, 108u8, 101u8, 102u8, 116u8] {
                Some(((sc, half), (0, half)))
            } else if s == seq![116u8, 111u8, 32u8, 116u8, 111u8, 112u8] {
                Some(((half, sc), (half, 0)))
            } else if s == seq![116u8, 111u8, 32u8, 98u8, 111u8, 116u8, 116u8, 111u8, 109u8] {
                Some(((half, 0), (half, sc)))
            } else if s == seq![116u8, 111u8, 32u8, 116u8, 111u8, 112u8, 32u8, 114u8, 105u8, 103u8, 104u8, 116u8] {
                Some(((0, sc), (sc, 0)))
            } else if s == seq![116u8, 111u8, 32u8, 116u8, 111u8, 112u8, 32u8, 108u8, 101u8, 102u8, 116u8] {
                Some(((sc, sc), (0, 0)))
            } else if s == seq![116u8, 111u8, 32u8, 98u8, 111u8, 116u8, 116u8, 111u8, 109u8, 32u8, 114u8, 105u8, 103u8, 104u8, 116u8] {
                Some(((0, 0), (sc, sc)))
            } else if s == seq![116u8, 111u8, 32u8, 98u8, 111u8, 116u8, 116u8, 111u8, 109u8, 32u8, 108u8, 101u8, 102u8, 116u8] {
                Some(((sc, 0), (0, sc)))
            } else {
                None
            }
        },
    }
}

/// Whether the byte string ends with the given suffix.
fn ends_with(s: &[u8], t: &[u8]) -> (r: bool)
    ensures
        r == spec_ends_with(s@, t@),
{
    if t.len() > s.len() {
        return false;
    }
    let tail = vstd::slice::slice_subrange(s, s.len() - t.len(), s.len());
    eq_bytes(tail, t)
}

/// Parses an angle token into reduced fixed-point degrees.
pub fn parse_angle(s: &[u8]) -> (r: Option<i64>)
    ensures
        match r {
            Some(a) => {
                &&& Some(a as int) == spec_parse_angle(s@)
                &&& -360 * CHANNEL_SCALE < a < 360 * CHANNEL_SCALE
            },
            None => spec_parse_angle(s@) is None,
        },
{
    let whole: i64 = 360 * CHANNEL_SCALE;
    if ends_with(s, &[100, 101, 103]) {
        proof {
            assert([100u8, 101u8, 103u8]@ =~= seq![100u8, 101u8, 103u8]);
        }
        match parse_number(slice_prefix(s, s.len() - 3)) {
            Some(v) => Some(tmod(v * DEG_UNIT, whole)),
            None => None,
        }
    } else if ends_with(s, &[103, 114, 97, 100]) {
        proof {
            assert([103u8, 114u8, 97u8, 100u8]@ =~= seq![103u8, 114u8, 97u8, 100u8]);
        }
        match parse_number(slice_prefix(s, s.len() - 4)) {
            Some(v) => Some(tmod(v * 22_950, whole)),
            None => None,
        }
    } else if ends_with(s, &[114, 97, 100]) {
        proof {
            assert([114u8, 97u8, 100u8]@ =~= seq![114u8, 97u8, 100u8]);
        }
        match parse_number(slice_prefix(s, s.len() - 3)) {
            Some(v) => {
                proof {
                    assert(-0x2000_0000_0000_0000_0000_0000_0000_0000i128 < (v as int)
                        * DEG_PER_RAD_NUM < 0x2000_0000_0000_0000_0000_0000_0000_0000i128)
                        by (nonlinear_arith)
                        requires
                            -NUM_BOUND <= v <= NUM_BOUND && NUM_BOUND == 100_000_000_000_000
                                && DEG_PER_RAD_NUM == 1_461_042_377_583,
                    ;
                }
                proof {
                    lemma_rdiv_bound(
                        (v as int) * DEG_PER_RAD_NUM,
                        1_000_000,
                        0x1000_0000_0000_0000_0000_0000int,
                    );
                }
                let d128 = rdiv128((v as i128) * (DEG_PER_RAD_NUM as i128), 1_000_000);
                Some(tmod128(d128, whole))
            },
            None => None,
        }
    } else if ends_with(s, &[116, 117, 114, 110]) {
        proof {
            assert([116u8, 117u8, 114u8, 110u8]@ =~= seq![116u8, 117u8, 114u8, 110u8]);
        }
        match parse_number(slice_prefix(s, s.len() - 4)) {
            Some(v) => Some(tmod(tmod(v, 100_000) * 9_180_000, whole)),
            None => None,
        }
    } else {
        match parse_number(s) {
            Some(v) => Some(tmod(v * DEG_UNIT, whole)),
            None => None,
        }
    }
}

/// The first `n` bytes of `s`.
fn slice_prefix(s: &[u8], n: usize) -> (r: &[u8])
    requires
        n <= s@.len(),
    ensures
        r@ == s@.subrange(0, n as int),
{
    vstd::slice::slice_subrange(s, 0, n)
}

/// The truncated remainder on `i128`, brought into `i64`.
fn tmod128(a: i128, m: i64) -> (r: i64)
    requires
        0 < m,
        -0x2000_0000_0000_0000_0000_0000_0000_0000i128 < a
            < 0x2000_0000_0000_0000_0000_0000_0000_0000i128,
    ensures
        r as int == spec_tmod(a as int, m as int),
        -m < r < m,
{
    if a >= 0 {
        let q: u128 = (a as u128) % (m as u128);
        q as i64
    } else {
        let k: u128 = ((-a) as u128) % (m as u128);
        -(k as i64)
    }
}

/// The slope of the gradient-progression line for the reduced angle `a`.
fn slope_of_angle(a: i64) -> (m: i64)
    requires
        -360 * CHANNEL_SCALE < a < 360 * CHANNEL_SCALE,
    ensures
        m as int == spec_slope_of_angle(a as int),
        -SLOPE_MAX <= m <= SLOPE_MAX,
{
    let sc = CHANNEL_SCALE;
    let aa = if a < 0 {
        -a
    } else {
        a
    };
    if aa == 90 * sc || aa == 270 * sc {
        if a >= 0 {
            SLOPE_MAX
        } else {
            -SLOPE_MAX
        }
    } else {
        let ar = tmod(a, 180 * sc);
        let ar2 = if ar > 90 * sc {
            ar - 180 * sc
        } else if ar < -90 * sc {
            ar + 180 * sc
        } else {
            ar
        };
        proof {
            assert(-(2 * CHANNEL_SCALE as int) * CHANNEL_SCALE <= (ar2 as int) * (
            -RAD_PER_DEG as int) <= (2 * CHANNEL_SCALE as int) * CHANNEL_SCALE)
                by (nonlinear_arith)
                requires
                    -90 * CHANNEL_SCALE <= ar2 <= 90 * CHANNEL_SCALE && RAD_PER_DEG == 44_505_896
                        && CHANNEL_SCALE == 2_550_000_000,
            ;
            lemma_rdiv_bound(
                (ar2 as int) * (-RAD_PER_DEG as int),
                CHANNEL_SCALE as int,
                2 * CHANNEL_SCALE as int,
            );
        }
        let xr = fp_mul(ar2, -RAD_PER_DEG);
        let sv = crate::trig::sin_fp(xr);
        let cv = crate::trig::cos_fp(xr);
        if cv == 0 {
            if sv >= 0 {
                SLOPE_MAX
            } else {
                -SLOPE_MAX
            }
        } else {
            let q = fp_div(sv, cv);
            if q > SLOPE_MAX {
                SLOPE_MAX
            } else if q < -SLOPE_MAX {
                -SLOPE_MAX
            } else {
                q
            }
        }
    }
}

/// The point where the line `y = m x + b` meets the unit square at or near
/// the sample abscissa `x`.
fn point_on_line(m: i64, b: i64, x: i64) -> (p: (i64, i64))
    requires
        -SLOPE_MAX <= m <= SLOPE_MAX,
        b as int == spec_rdiv64(-(m as int), 2) + CHANNEL_SCALE / 2,
        x == 0 || x == CHANNEL_SCALE,
    ensures
        (p.0 as int, p.1 as int) == spec_point_on_line(m as int, b as int, x as int),
        0 <= p.0 <= CHANNEL_SCALE,
        0 <= p.1 <= CHANNEL_SCALE,
{
    let sc = CHANNEL_SCALE;
    proof {
        lemma_rdiv_bound(-(m as int), 2, SLOPE_MAX as int);
        assert(-((SLOPE_MAX as int) * CHANNEL_SCALE) <= (m as int) * x <= (SLOPE_MAX as int)
            * CHANNEL_SCALE) by (nonlinear_arith)
            requires
                -SLOPE_MAX <= m <= SLOPE_MAX && (x == 0 || x == CHANNEL_SCALE) && CHANNEL_SCALE
                    == 2_550_000_000,
        ;
        lemma_rdiv_bound((m as int) * x, CHANNEL_SCALE as int, SLOPE_MAX as int);
    }
    let y = fp_mul(m, x) + b;
    if 0 <= y && y <= sc {
        (x, y)
    } else if y > sc {
        proof {
            if m == 0 {
                crate::fixed::lemma_rdiv_zero(2);
            }
        }
        (clamp_channel(fp_div(sc - b, m)), sc)
    } else {
        proof {
            if m == 0 {
                crate::fixed::lemma_rdiv_zero(2);
            }
        }
        (clamp_channel(fp_div(-b, m)), 0)
    }
}

/// Resolves a direction token to gradient coordinates, or nothing.
pub fn resolve_direction_bytes(s: &[u8]) -> (r: Option<GradientCoordinates>)
    ensures
        match r {
            Some(c) => {
                &&& spec_resolve_direction(s@) matches Some(pts)
                &&& (c.start[0] as int, c.start[1] as int) == pts.0
                &&& (c.end[0] as int, c.end[1] as int) == pts.1
                &&& c.wf()
            },
            None => spec_resolve_direction(s@) is None,
        },
{
    let sc = CHANNEL_SCALE;
    let half = sc / 2;
    match parse_angle(s) {
        Some(a) => {
            let m = slope_of_angle(a);
            proof {
                lemma_rdiv_bound(-(m as int), 2, SLOPE_MAX as int);
            }
            let b = rdiv64(-m, 2) + half;
            let aa = if a < 0 {
                -a
            } else {
                a
            };
            let (x_s, x_e): (i64, i64) = if aa < 90 * sc {
                (0, sc)
            } else if aa < 270 * sc {
                (sc, 0)
            } else {
                (0, sc)
            };
            let start = point_on_line(m, b, x_s);
            let end = point_on_line(m, b, x_e);
            Some(GradientCoordinates { start: [start.0, start.1], end: [end.0, end.1] })
        },
        None => {
            if eq_kw(s, &[116, 111, 32, 114, 105, 103, 104, 116]) {
                Some(GradientCoordinates { start: [0, half], end: [sc, half] })
            } else if eq_kw(s, &[116, 111, 32, 108, 101, 102, 116]) {
                Some(GradientCoordinates { start: [sc, half], end: [0, half] })
            } else if eq_kw(s, &[116, 111, 32, 116, 111, 112]) {
                Some(GradientCoordinates { start: [half, sc], end: [half, 0] })
            } else if eq_kw(s, &[116, 111, 32, 98, 111, 116, 116, 111, 109]) {
                Some(GradientCoordinates { start: [half, 0], end: [half, sc] })
            } else if eq_kw(s, &[116, 111, 32, 116, 111, 112, 32, 114, 105, 103, 104, 116]) {
                Some(GradientCoordinates { start: [0, sc], end: [sc, 0] })
            } else if eq_kw(s, &[116, 111, 32, 116, 111, 112, 32, 108, 101, 102, 116]) {
                Some(GradientCoordinates { start: [sc, sc], end: [0, 0] })
            } else if eq_kw(s, &[116, 111, 32, 98, 111, 116, 116, 111, 109, 32, 114, 105, 103, 104, 116]) {
                Some(GradientCoordinates { start: [0, 0], end: [sc, sc] })
            } else if eq_kw(s, &[116, 111, 32, 98, 111, 116, 116, 111, 109, 32, 108, 101, 102, 116]) {
                Some(GradientCoordinates { start: [sc, 0], end: [0, sc] })
            } else {
                None
            }
        },
    }
}

/// Whether the bytes spell the given keyword bytes.
fn eq_kw(s: &[u8], t: &[u8]) -> (r: bool)
    ensures
        r == (s@ == t@),
{
    eq_bytes(s, t)
}

/// Whether two byte strings are equal.
pub fn eq_bytes(s: &[u8], t: &[u8]) -> (r: bool)
    ensures
        r == (s@ == t@),
{
    if s.len() != t.len() {
        return false;
    }
    eq_bytes_from(s, t, 0)
}

/// Whether two byte strings of one length agree from position `i` on.
fn eq_bytes_from(s: &[u8], t: &[u8], i: usize) -> (r: bool)
    requires
        s@.len() == t@.len(),
        i <= s@.len(),
        forall|j: int| 0 <= j < i ==> s@[j] == t@[j],
    ensures
        r == (s@ == t@),
    decreases s@.len() - i,
{
    if i >= s.len() {
        proof {
            assert(s@ =~= t@);
        }
        true
    } else if s[i] == t[i] {
        eq_bytes_from(s, t, i + 1)
    } else {
        proof {
            assert(s@ == t@ ==> s@[i as int] == t@[i as int]);
        }
        false
    }
}

/// Whether `s` is a valid direction token: one of the eight keyword
/// phrases, or a number with one of the four angle unit suffixes.
pub open spec fn spec_is_valid_direction(s: Seq<u8>) -> bool {
    ||| s == seq![116u8, 111u8, 32u8, 114u8, 105u8, 103u8, 104u8, 116u8]
    ||| s == seq![116u8, 111u8, 32u8, 108u8, 101u8, 102u8, 116u8]
    ||| s == seq![116u8, 111u8, 32u8, 116u8, 111u8, 112u8]
    ||| s == seq![116u8, 111u8, 32u8, 98u8, 111u8, 116u8, 116u8, 111u8, 109u8]
    ||| s == seq![116u8, 111u8, 32u8, 116u8, 111u8, 112u8, 32u8, 114u8, 105u8, 103u8, 104u8, 116u8]
    ||| s == seq![116u8, 111u8, 32u8, 116u8, 111u8, 112u8, 32u8, 108u8, 101u8, 102u8, 116u8]
    ||| s == seq![116u8, 111u8, 32u8, 98u8, 111u8, 116u8, 116u8, 111u8, 109u8, 32u8, 114u8, 105u8, 103u8, 104u8, 116u8]
    ||| s == seq![116u8, 111u8, 32u8, 98u8, 111u8, 116u8, 116u8, 111u8, 109u8, 32u8, 108u8, 101u8, 102u8, 116u8]
    ||| (spec_ends_with(s, seq![100u8, 101u8, 103u8]) && spec_parse_number(
        s.subrange(0, s.len() - 3),
    ) is Some)
    ||| (spec_ends_with(s, seq![103u8, 114u8, 97u8, 100u8]) && spec_parse_number(
        s.subrange(0, s.len() - 4),
    ) is Some)
    ||| (spec_ends_with(s, seq![114u8, 97u8, 100u8]) && spec_parse_number(
        s.subrange(0, s.len() - 3),
    ) is Some)
    ||| (spec_ends_with(s, seq![116u8, 117u8, 114u8, 110u8]) && spec_parse_number(
        s.subrange(0, s.len() - 4),
    ) is Some)
}

/// Whether `s` is a valid direction token (a keyword phrase or a suffixed
/// angle; a bare number is accepted only by the resolver, not here).
pub fn is_valid_direction(s: &[u8]) -> (r: bool)
    ensures
        r == spec_is_valid_direction(s@),
{
    if eq_kw(s, &[116, 111, 32, 114, 105, 103, 104, 116]) || eq_kw(s, &[116, 111, 32, 108, 101, 102, 116]) || eq_kw(s, &[116, 111, 32, 116, 111, 112])
        || eq_kw(s, &[116, 111, 32, 98, 111, 116, 116, 111, 109]) || eq_kw(s, &[116, 111, 32, 116, 111, 112, 32, 114, 105, 103, 104, 116]) || eq_kw(s, &[116, 111, 32, 116, 111, 112, 32, 108, 101, 102, 116]) || eq_kw(s, &[116, 111, 32, 98, 111, 116, 116, 111, 109, 32, 114, 105, 103, 104, 116]) || eq_kw(s, &[116, 111, 32, 98, 111, 116, 116, 111, 109, 32, 108, 101, 102, 116]) {
        return true;
    }
    proof {
        assert([100u8, 101u8, 103u8]@ =~= seq![100u8, 101u8, 103u8]);
        assert([103u8, 114u8, 97u8, 100u8]@ =~= seq![103u8, 114u8, 97u8, 100u8]);
        assert([114u8, 97u8, 100u8]@ =~= seq![114u8, 97u8, 100u8]);
        assert([116u8, 117u8, 114u8, 110u8]@ =~= seq![116u8, 117u8, 114u8, 110u8]);
    }
    if ends_with(s, &[100, 101, 103]) {
        if parse_number(slice_prefix(s, s.len() - 3)).is_some() {
            return true;
        }
    }
    if ends_with(s, &[103, 114, 97, 100]) {
        if parse_number(slice_prefix(s, s.len() - 4)).is_some() {
            return true;
        }
    }
    if ends_with(s, &[114, 97, 100]) {
        if parse_number(slice_prefix(s, s.len() - 3)).is_some() {
            return true;
        }
    }
    if ends_with(s, &[116, 117, 114, 110]) {
        if parse_number(slice_prefix(s, s.len() - 4)).is_some() {
            return true;
        }
    }
    false
}

/// Resolves a direction string: the coordinates where it is a keyword
/// phrase or an angle, else the invalid-coordinates error carrying the
/// string.
pub fn resolve_direction(s: &str) -> (r: Result<GradientCoordinates, WinColorError>)
    ensures
        match r {
            Ok(c) => {
                &&& spec_resolve_direction(s.spec_bytes()) matches Some(pts)
                &&& (c.start[0] as int, c.start[1] as int) == pts.0
                &&& (c.end[0] as int, c.end[1] as int) == pts.1
                &&& c.wf()
            },
            Err(e) => {
                &&& spec_resolve_direction(s.spec_bytes()) is None
                &&& e matches WinColorError::InvalidGradientCoordinates(t) && t@ == s@
            },
        },
{
    let bytes = s.as_bytes_vec();
    match resolve_direction_bytes(bytes.as_slice()) {
        Some(c) => Ok(c),
        None => Err(WinColorError::InvalidGradientCoordinates(s.to_owned())),
    }
}

} // verus!
