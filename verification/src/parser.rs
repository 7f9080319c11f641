//! The colour expression parser.
//!
//! An expression is trimmed and lowercased; a `gradient(...)` wrapper is
//! stripped and parsing re-enters on the inner content. The text is then
//! scanned left to right for colour tokens — hex runs, `rgb()` / `rgba()` /
//! `darken()` / `lighten()` calls matched to their balancing paren, the
//! `accent` literal and known colour names on word boundaries — each match
//! greedy, so a nested call is one token. One token makes a solid colour;
//! several make a gradient: the tokens are parsed independently (ones that
//! fail to parse are silently dropped), the stops spread evenly, and the
//! text after the last token is split on commas and searched for the first
//! valid direction, `to right` by default.

use vstd::prelude::*;
use vstd::string::StrSliceExecFns;
use vstd::string::StringSliceAdditionalSpecFns;
use crate::Color;
use crate::GlobalColor;
use crate::direction::GradientCoordinates;
use crate::direction::is_valid_direction;
use crate::direction::resolve_direction_bytes;
use crate::direction::spec_is_valid_direction;
use crate::direction::spec_resolve_direction;
use crate::error::WinColorError;
use crate::gradient::Gradient;
use crate::gradient::GradientStop;
use crate::gradient::ColorMapping;
use crate::gradient::parse_gradient_direction;
use crate::gradient::spec_gradient_direction;
use crate::hex::spec_is_hex_digit;
use crate::named::spec_named_color;
use crate::named::named_color;
use crate::num::find_byte_from;
use crate::num::spec_find_byte_from;
use crate::rgba::CHANNEL_SCALE;
use crate::rgba::Rgba;
use crate::rgba::Solid;
use crate::token::TokenOutcome;
use crate::token::parse_token_bytes;
use crate::token::spec_parse_token;
use crate::token::spec_starts_with;
use crate::token::spec_token_error_matches;
use crate::token::spec_trim_tok;
use crate::token::starts_with_bytes;
use crate::utils::lower_bytes;
use crate::utils::spec_lower;
use crate::utils::trim_range;

verus! {

/// The length of the run of hex digits at `i`, at most `cap`.
pub open spec fn spec_hex_run(s: Seq<u8>, i: int, cap: nat) -> nat
    decreases cap,
{
    if cap == 0 || i < 0 || i >= s.len() || !spec_is_hex_digit(s[i]) {
        0
    } else {
        1 + spec_hex_run(s, i + 1, (cap - 1) as nat)
    }
}

/// Whether `b` can stand inside a word: a small letter, a digit or an
/// underscore.
pub open spec fn spec_is_word_byte(b: u8) -> bool {
    (97 <= b <= 122) || (48 <= b <= 57) || b == 95
}

/// The end of the word run starting at `i`.
pub open spec fn spec_word_end(s: Seq<u8>, i: int) -> int
    decreases s.len() - i,
{
    if i < 0 || i >= s.len() || !spec_is_word_byte(s[i]) {
        i
    } else {
        spec_word_end(s, i + 1)
    }
}

/// The position of the paren closing depth `depth`, scanning from `i`.
pub open spec fn spec_find_close(s: Seq<u8>, i: int, depth: int) -> Option<int>
    decreases s.len() - i,
{
    if i < 0 || i >= s.len() {
        None
    } else if s[i] == 40 {
        spec_find_close(s, i + 1, depth + 1)
    } else if s[i] == 41 {
        if depth <= 1 {
            Some(i)
        } else {
            spec_find_close(s, i + 1, depth - 1)
        }
    } else {
        spec_find_close(s, i + 1, depth)
    }
}

/// Whether `s` has `t` at position `i`.
pub open spec fn spec_has_at(s: Seq<u8>, i: int, t: Seq<u8>) -> bool {
    0 <= i && i + t.len() <= s.len() && s.subrange(i, i + t.len()) == t
}

/// The end of the colour token starting at `i`, if one starts there: a hex
/// run of three to eight digits after `#`, an `rgba(` / `rgb(` /
/// `darken(` / `lighten(` call up to its balancing paren, or a
/// word-bounded known name or the `accent` literal.
pub open spec fn spec_match_at(s: Seq<u8>, i: int) -> Option<int> {
    if i < 0 || i >= s.len() {
        None
    } else if s[i] == 35 {
        let run = spec_hex_run(s, i + 1, 8);
        if run >= 3 {
            Some(i + 1 + run)
        } else {
            None
        }
    } else if spec_has_at(s, i, seq![114u8, 103u8, 98u8, 97u8, 40u8]) {
        spec_call_end(s, i, i + 5)
    } else if spec_has_at(s, i, seq![114u8, 103u8, 98u8, 40u8]) {
        spec_call_end(s, i, i + 4)
    } else if spec_has_at(s, i, seq![100u8, 97u8, 114u8, 107u8, 101u8, 110u8, 40u8]) {
        spec_call_end(s, i, i + 7)
    } else if spec_has_at(s, i, seq![108u8, 105u8, 103u8, 104u8, 116u8, 101u8, 110u8, 40u8]) {
        spec_call_end(s, i, i + 8)
    } else if 97 <= s[i] <= 122 && (i == 0 || !spec_is_word_byte(s[i - 1])) {
        let e0 = spec_word_end(s, i);
        let e = if i < e0 <= s.len() {
            e0
        } else {
            i + 1
        };
        let w = s.subrange(i, e);
        if w == seq![97u8, 99u8, 99u8, 101u8, 110u8, 116u8] || spec_named_color(w) is Some {
            Some(e)
        } else {
            None
        }
    } else {
        None
    }
}

/// The end of a call token: one past its balancing close paren.
pub open spec fn spec_call_end(s: Seq<u8>, i: int, open_end: int) -> Option<int> {
    match spec_find_close(s, open_end, 1) {
        Some(c) => if i < c + 1 <= s.len() {
            Some(c + 1)
        } else {
            None
        },
        None => None,
    }
}

/// The colour token spans of `s` from `i` on, scanning left to right and
/// taking each greedy match.
pub open spec fn spec_scan(s: Seq<u8>, i: int) -> Seq<(int, int)>
    decreases s.len() - i,
{
    if i < 0 || i >= s.len() {
        Seq::empty()
    } else {
        match spec_match_at(s, i) {
            Some(e) => {
                if i < e <= s.len() {
                    seq![(i, e)] + spec_scan(s, e)
                } else {
                    spec_scan(s, i + 1)
                }
            },
            None => spec_scan(s, i + 1),
        }
    }
}

/// The colours of the tokens `toks[k..]` of `s` that parse, in order.
pub open spec fn spec_token_colors(
    s: Seq<u8>,
    toks: Seq<(int, int)>,
    k: int,
    is_active: Option<bool>,
    accent: Option<(u8, u8, u8)>,
) -> Seq<(int, int, int, int)>
    decreases toks.len() - k,
{
    if k < 0 || k >= toks.len() {
        Seq::empty()
    } else {
        let a0 = toks[k].0;
        let b0 = toks[k].1;
        let a = if 0 <= a0 <= s.len() {
            a0
        } else {
            0
        };
        let b = if a <= b0 <= s.len() {
            b0
        } else {
            a
        };
        let rest = spec_token_colors(s, toks, k + 1, is_active, accent);
        match spec_parse_token(s.subrange(a, b), is_active, accent) {
            TokenOutcome::Value { r, g, b, a } => seq![(r, g, b, a)] + rest,
            _ => rest,
        }
    }
}

/// What parsing a colour expression yields.
pub enum ColorOutcome {
    /// A single colour.
    One { r: int, g: int, b: int, a: int },
    /// A gradient: stops as `(position numerator, position denominator,
    /// colour)`, and a direction.
    Many { stops: Seq<(int, int, (int, int, int, int))>, dir: ((int, int), (int, int)) },
    /// A single token that failed, with its shaped error.
    Bad(TokenOutcome),
    /// A structured mapping whose direction string resolved to nothing.
    BadDirection { text: Seq<char> },
    /// No usable colour at all.
    NoColors,
}

/// What parsing the expression `s` yields: the trimmed, lowercased text,
/// unwrapped from a `gradient(...)` wrapper, is scanned for colour tokens;
/// one token is a solid colour, several are evenly spread gradient stops
/// (failing tokens silently dropped, one surviving colour degenerating to
/// a solid) with the direction read from the text after the last token.
pub open spec fn spec_parse_color(
    s: Seq<u8>,
    is_active: Option<bool>,
    accent: Option<(u8, u8, u8)>,
) -> ColorOutcome
    decreases s.len(),
{
    let t = spec_trim_tok(spec_lower(s));
    if spec_starts_with(
        t,
        seq![103u8, 114u8, 97u8, 100u8, 105u8, 101u8, 110u8, 116u8, 40u8],
    ) {
        let end = if t.last() == 41 {
            t.len() - 1
        } else {
            t.len() as int
        };
        let inner = t.subrange(9, end);
        if inner.len() < s.len() {
            spec_parse_color(inner, is_active, accent)
        } else {
            ColorOutcome::NoColors
        }
    } else {
        spec_parse_scanned(t, is_active, accent)
    }
}

/// What scanning the normalized text `t` for colour tokens yields.
pub open spec fn spec_parse_scanned(
    t: Seq<u8>,
    is_active: Option<bool>,
    accent: Option<(u8, u8, u8)>,
) -> ColorOutcome {
    {
        let toks = spec_scan(t, 0);
        if toks.len() == 0 {
            ColorOutcome::NoColors
        } else if toks.len() == 1 {
            let a0 = toks[0].0;
            let b0 = toks[0].1;
            let a = if 0 <= a0 <= t.len() {
                a0
            } else {
                0
            };
            let b = if a <= b0 <= t.len() {
                b0
            } else {
                a
            };
            match spec_parse_token(t.subrange(a, b), is_active, accent) {
                TokenOutcome::Value { r, g, b, a } => ColorOutcome::One { r, g, b, a },
                o => ColorOutcome::Bad(o),
            }
        } else {
            let colors = spec_token_colors(t, toks, 0, is_active, accent);
            if colors.len() == 0 {
                ColorOutcome::NoColors
            } else if colors.len() == 1 {
                ColorOutcome::One {
                    r: colors[0].0,
                    g: colors[0].1,
                    b: colors[0].2,
                    a: colors[0].3,
                }
            } else {
                let le = toks[toks.len() - 1].1;
                let les = if 0 <= le <= t.len() {
                    le
                } else {
                    t.len() as int
                };
                let rem = t.subrange(les, t.len() as int);
                let m = colors.len() as int;
                ColorOutcome::Many {
                    stops: Seq::new(
                        colors.len(),
                        |k: int| (k, m - 1, colors[k]),
                    ),
                    dir: spec_direction_choice_at(rem, 0),
                }
            }
        }
    }
}

/// Whether the parse result `r` realizes the outcome `o`: the same colour
/// or gradient (with every stop and the direction equal, and the gradient
/// well formed), or the matching error.
pub open spec fn spec_color_matches(o: ColorOutcome, r: Result<Color, WinColorError>) -> bool {
    match o {
        ColorOutcome::One { r: rr, g, b, a } => {
            &&& r matches Ok(Color::Solid(sol))
            &&& sol.color.r == rr
            &&& sol.color.g == g
            &&& sol.color.b == b
            &&& sol.color.a == a
            &&& sol.color.wf()
        },
        ColorOutcome::Many { stops, dir } => {
            &&& r matches Ok(Color::Gradient(grad))
            &&& (grad.direction.start[0] as int, grad.direction.start[1] as int) == dir.0
            &&& (grad.direction.end[0] as int, grad.direction.end[1] as int) == dir.1
            &&& grad.gradient_stops@.len() == stops.len()
            &&& forall|k: int|
                0 <= k < stops.len() ==> {
                    let st = #[trigger] grad.gradient_stops@[k];
                    st.pos_num == stops[k].0 && st.pos_den == stops[k].1 && (
                    st.color.r as int,
                    st.color.g as int,
                    st.color.b as int,
                    st.color.a as int,
                    ) == stops[k].2
                }
            &&& grad.wf()
        },
        ColorOutcome::Bad(t) => r matches Err(e) && spec_token_error_matches(t, e),
        ColorOutcome::BadDirection { text } => r matches Err(
            WinColorError::InvalidGradientCoordinates(t),
        ) && t@ == text,
        ColorOutcome::NoColors => r matches Err(WinColorError::NoValidColors),
    }
}

/// What a global colour definition parses to: the expression parser on a
/// string, the structured mapping parser on a mapping.
pub open spec fn spec_to_color(
    g: GlobalColor,
    is_active: Option<bool>,
    accent: Option<(u8, u8, u8)>,
) -> ColorOutcome {
    match g {
        GlobalColor::String(s) => spec_parse_color(vstd::utf8::encode_utf8(s@), is_active, accent),
        GlobalColor::Mapping(m) => spec_parse_color_mapping(m, is_active, accent),
    }
}

/// The mapping entries of `cb[k..]` that parse to a solid colour, each
/// with its original index.
pub open spec fn spec_mapping_colors(
    cb: Seq<Seq<u8>>,
    k: int,
    is_active: Option<bool>,
    accent: Option<(u8, u8, u8)>,
) -> Seq<(int, (int, int, int, int))>
    decreases cb.len() - k,
{
    if k < 0 || k >= cb.len() {
        Seq::empty()
    } else {
        let rest = spec_mapping_colors(cb, k + 1, is_active, accent);
        match spec_parse_color(cb[k], is_active, accent) {
            ColorOutcome::One { r, g, b, a } => seq![(k, (r, g, b, a))] + rest,
            _ => rest,
        }
    }
}

/// The direction string of a structured mapping, where it has one.
pub open spec fn spec_direction_text(d: crate::gradient::GradientDirection) -> Seq<char> {
    match d {
        crate::gradient::GradientDirection::Direction(s) => s@,
        crate::gradient::GradientDirection::Coordinates(_) => Seq::empty(),
    }
}

/// What parsing a structured mapping yields: no colours degenerate to
/// transparent black, one entry is parsed as a full expression, several
/// entries become gradient stops at their original indices (entries that
/// fail or are themselves gradients are dropped; one survivor degenerates
/// to a solid), with the mapping's own direction.
pub open spec fn spec_parse_color_mapping(
    m: ColorMapping,
    is_active: Option<bool>,
    accent: Option<(u8, u8, u8)>,
) -> ColorOutcome {
    let cb = m.colors@.map_values(|s: String| vstd::utf8::encode_utf8(s@));
    if cb.len() == 0 {
        ColorOutcome::One { r: 0, g: 0, b: 0, a: 0 }
    } else if cb.len() == 1 {
        spec_parse_color(cb[0], is_active, accent)
    } else {
        let picked = spec_mapping_colors(cb, 0, is_active, accent);
        if picked.len() == 0 {
            ColorOutcome::NoColors
        } else {
            match spec_gradient_direction(m.direction) {
                None => ColorOutcome::BadDirection { text: spec_direction_text(m.direction) },
                Some(dir) => {
                    if picked.len() == 1 {
                        ColorOutcome::One {
                            r: picked[0].1.0,
                            g: picked[0].1.1,
                            b: picked[0].1.2,
                            a: picked[0].1.3,
                        }
                    } else {
                        ColorOutcome::Many {
                            stops: Seq::new(
                                picked.len(),
                                |k: int| (picked[k].0, cb.len() - 1, picked[k].1),
                            ),
                            dir,
                        }
                    }
                },
            }
        }
    }
}

/// The length of the run of hex digits at `i`, at most `cap`.
fn hex_run(s: &[u8], i: usize, cap: usize) -> (r: usize)
    requires
        i <= s@.len(),
        cap <= 8,
    ensures
        r as nat == spec_hex_run(s@, i as int, cap as nat),
        r <= cap,
        i + r <= s@.len(),
    decreases cap,
{
    if cap == 0 || i >= s.len() {
        return 0;
    }
    let b = s[i];
    if (b >= 48 && b <= 57) || (b >= 97 && b <= 102) {
        1 + hex_run(s, i + 1, cap - 1)
    } else {
        0
    }
}

/// The end of the word run starting at `i`.
fn word_end(s: &[u8], i: usize) -> (r: usize)
    requires
        i <= s@.len(),
    ensures
        r as int == spec_word_end(s@, i as int),
        i <= r <= s@.len(),
    decreases s@.len() - i,
{
    if i >= s.len() {
        return i;
    }
    let b = s[i];
    if (97 <= b && b <= 122) || (48 <= b && b <= 57) || b == 95 {
        word_end(s, i + 1)
    } else {
        i
    }
}

/// Finds the paren closing depth `depth`, scanning from `i`.
fn find_close(s: &[u8], i: usize, depth: Ghost<int>, d: i128) -> (r: Option<usize>)
    requires
        i <= s@.len(),
        d == depth@,
        0 <= d <= i as int + 1,
    ensures
        match r {
            Some(c) => Some(c as int) == spec_find_close(s@, i as int, depth@) && i <= c
                < s@.len(),
            None => spec_find_close(s@, i as int, depth@) is None,
        },
    decreases s@.len() - i,
{
    if i >= s.len() {
        None
    } else {
        let b = s[i];
        if b == 40 {
            find_close(s, i + 1, Ghost(depth@ + 1), d + 1)
        } else if b == 41 {
            if d <= 1 {
                Some(i)
            } else {
                find_close(s, i + 1, Ghost(depth@ - 1), d - 1)
            }
        } else {
            find_close(s, i + 1, depth, d)
        }
    }
}

/// Whether `s` has `t` at position `i`.
fn has_at(s: &[u8], i: usize, t: &[u8]) -> (r: bool)
    requires
        i <= s@.len(),
    ensures
        r == spec_has_at(s@, i as int, t@),
{
    if t.len() > s.len() - i {
        return false;
    }
    let part = vstd::slice::slice_subrange(s, i, i + t.len());
    crate::direction::eq_bytes(part, t)
}

/// The end of the colour token starting at `i`, if one starts there.
fn match_at(s: &[u8], i: usize) -> (r: Option<usize>)
    requires
        i < s@.len(),
    ensures
        match r {
            Some(e) => Some(e as int) == spec_match_at(s@, i as int) && i < e <= s@.len(),
            None => spec_match_at(s@, i as int) is None,
        },
{
    let b = s[i];
    if b == 35 {
        let run = hex_run(s, i + 1, 8);
        if run >= 3 {
            Some(i + 1 + run)
        } else {
            None
        }
    } else if has_at(s, i, &[114, 103, 98, 97, 40]) {
        proof {
            assert([114u8, 103u8, 98u8, 97u8, 40u8]@ =~= seq![114u8, 103u8, 98u8, 97u8, 40u8]);
        }
        call_end(s, i, i + 5)
    } else if has_at(s, i, &[114, 103, 98, 40]) {
        proof {
            assert([114u8, 103u8, 98u8, 40u8]@ =~= seq![114u8, 103u8, 98u8, 40u8]);
        }
        call_end(s, i, i + 4)
    } else if has_at(s, i, &[100, 97, 114, 107, 101, 110, 40]) {
        proof {
            assert([100u8, 97u8, 114u8, 107u8, 101u8, 110u8, 40u8]@ =~= seq![
                100u8,
                97u8,
                114u8,
                107u8,
                101u8,
                110u8,
                40u8,
            ]);
        }
        call_end(s, i, i + 7)
    } else if has_at(s, i, &[108, 105, 103, 104, 116, 101, 110, 40]) {
        proof {
            assert([108u8, 105u8, 103u8, 104u8, 116u8, 101u8, 110u8, 40u8]@ =~= seq![
                108u8,
                105u8,
                103u8,
                104u8,
                116u8,
                101u8,
                110u8,
                40u8,
            ]);
        }
        call_end(s, i, i + 8)
    } else if 97 <= b && b <= 122 && (i == 0 || {
        let p = s[i - 1];
        !((97 <= p && p <= 122) || (48 <= p && p <= 57) || p == 95)
    }) {
        let e0 = word_end(s, i);
        let e = if i < e0 {
            e0
        } else {
            i + 1
        };
        let w = vstd::slice::slice_subrange(s, i, e);
        proof {
            assert([97u8, 99u8, 99u8, 101u8, 110u8, 116u8]@ =~= seq![
                97u8,
                99u8,
                99u8,
                101u8,
                110u8,
                116u8,
            ]);
        }
        if crate::direction::eq_bytes(w, &[97, 99, 99, 101, 110, 116]) || named_color(w).is_some() {
            Some(e)
        } else {
            None
        }
    } else {
        None
    }
}

/// The end of a call token: one past its balancing close paren.
fn call_end(s: &[u8], i: usize, open_end: usize) -> (r: Option<usize>)
    requires
        i < open_end <= s@.len(),
    ensures
        match r {
            Some(e) => Some(e as int) == spec_call_end(s@, i as int, open_end as int) && i < e
                <= s@.len(),
            None => spec_call_end(s@, i as int, open_end as int) is None,
        },
{
    let n = s.len();
    match find_close(s, open_end, Ghost(1int), 1) {
        Some(c) => {
            proof {
                assert(c < n);
            }
            Some(c + 1)
        },
        None => None,
    }
}

/// Scans `s` from `i` for colour token spans.
fn scan_tokens(s: &[u8], i: usize) -> (r: Vec<(usize, usize)>)
    requires
        i <= s@.len(),
    ensures
        r@.map_values(|p: (usize, usize)| (p.0 as int, p.1 as int)) == spec_scan(s@, i as int),
        forall|k: int| 0 <= k < r@.len() ==> i <= (#[trigger] r@[k]).0 < r@[k].1 <= s@.len(),
    decreases s@.len() - i,
{
    if i >= s.len() {
        let r: Vec<(usize, usize)> = Vec::new();
        proof {
            assert(r@.map_values(|p: (usize, usize)| (p.0 as int, p.1 as int)) =~= spec_scan(
                s@,
                i as int,
            ));
        }
        return r;
    }
    match match_at(s, i) {
        Some(e) => {
            let mut rest = scan_tokens(s, e);
            let mut r: Vec<(usize, usize)> = Vec::new();
            r.push((i, e));
            r.append(&mut rest);
            proof {
                assert(r@.map_values(|p: (usize, usize)| (p.0 as int, p.1 as int)) =~= seq![
                    (i as int, e as int),
                ] + spec_scan(s@, e as int));
            }
            r
        },
        None => scan_tokens(s, i + 1),
    }
}

/// The spans as mathematical pairs.
pub open spec fn spec_spans(toks: Seq<(usize, usize)>) -> Seq<(int, int)> {
    toks.map_values(|p: (usize, usize)| (p.0 as int, p.1 as int))
}

/// Parses the tokens `toks[k..]`, keeping the colours of those that parse.
fn collect_colors(
    s: &[u8],
    toks: &Vec<(usize, usize)>,
    k: usize,
    is_active: Option<bool>,
    accent: Option<(u8, u8, u8)>,
) -> (r: Vec<Rgba>)
    requires
        k <= toks@.len(),
        forall|j: int| 0 <= j < toks@.len() ==> (#[trigger] toks@[j]).0 <= toks@[j].1 <= s@.len(),
    ensures
        r@.map_values(|c: Rgba| (c.r as int, c.g as int, c.b as int, c.a as int))
            == spec_token_colors(s@, spec_spans(toks@), k as int, is_active, accent),
        forall|j: int| 0 <= j < r@.len() ==> (#[trigger] r@[j]).wf(),
    decreases toks@.len() - k,
{
    if k >= toks.len() {
        let r: Vec<Rgba> = Vec::new();
        proof {
            assert(r@.map_values(|c: Rgba| (c.r as int, c.g as int, c.b as int, c.a as int))
                =~= spec_token_colors(s@, spec_spans(toks@), k as int, is_active, accent));
        }
        return r;
    }
    let (a, b) = toks[k];
    let tok = vstd::slice::slice_subrange(s, a, b);
    let mut rest = collect_colors(s, toks, k + 1, is_active, accent);
    match parse_token_bytes(tok, is_active, accent) {
        Ok(c) => {
            let mut r: Vec<Rgba> = Vec::new();
            r.push(c);
            r.append(&mut rest);
            proof {
                assert(r@.map_values(|c: Rgba| (c.r as int, c.g as int, c.b as int, c.a as int))
                    =~= seq![(c.r as int, c.g as int, c.b as int, c.a as int)]
                    + spec_token_colors(s@, spec_spans(toks@), k as int + 1, is_active, accent));
            }
            r
        },
        Err(_) => rest,
    }
}

/// The direction chosen from `rem[i..]`: the first valid comma-separated
/// piece resolved, or the `to right` pair by default.
pub open spec fn spec_direction_choice_at(rem: Seq<u8>, i: int) -> ((int, int), (int, int))
    decreases rem.len() - i,
{
    let sc = CHANNEL_SCALE as int;
    let default = ((0int, sc / 2), (sc, sc / 2));
    if i < 0 || i > rem.len() {
        default
    } else {
        let e = match spec_find_byte_from(rem, 44, i) {
            Some(k) => if i <= k <= rem.len() {
                k
            } else {
                rem.len() as int
            },
            None => rem.len() as int,
        };
        let piece = spec_trim_tok(rem.subrange(i, e));
        if piece.len() > 0 && spec_is_valid_direction(piece) {
            match spec_resolve_direction(piece) {
                Some(c) => c,
                None => default,
            }
        } else if e + 1 <= rem.len() {
            spec_direction_choice_at(rem, e + 1)
        } else {
            default
        }
    }
}

/// Picks the gradient direction from the text after the last colour token.
fn pick_direction(rem: &[u8], i: usize) -> (c: GradientCoordinates)
    requires
        i <= rem@.len(),
    ensures
        ((c.start[0] as int, c.start[1] as int), (c.end[0] as int, c.end[1] as int))
            == spec_direction_choice_at(rem@, i as int),
        c.wf(),
    decreases rem@.len() - i,
{
    let sc = CHANNEL_SCALE;
    let half = sc / 2;
    let e = match find_byte_from(rem, 44, i) {
        Some(k) => k,
        None => rem.len(),
    };
    let piece = crate::token::trimmed_sub(rem, i, e);
    if piece.len() > 0 && is_valid_direction(piece) {
        match resolve_direction_bytes(piece) {
            Some(c) => c,
            None => GradientCoordinates { start: [0, half], end: [sc, half] },
        }
    } else if e < rem.len() {
        pick_direction(rem, e + 1)
    } else {
        GradientCoordinates { start: [0, half], end: [sc, half] }
    }
}

/// Builds the gradient of the colours `colors`, evenly spread, with the
/// direction read from `t[le..]`.
fn build_gradient(t: &[u8], le: usize, colors: Vec<Rgba>) -> (g: Gradient)
    requires
        le <= t@.len(),
        colors@.len() >= 2,
        forall|j: int| 0 <= j < colors@.len() ==> (#[trigger] colors@[j]).wf(),
    ensures
        ({
            let m = colors@.len() as int;
            &&& (
                (g.direction.start[0] as int, g.direction.start[1] as int),
                (g.direction.end[0] as int, g.direction.end[1] as int),
            ) == spec_direction_choice_at(t@.subrange(le as int, t@.len() as int), 0)
            &&& g.gradient_stops@.len() == colors@.len()
            &&& forall|k: int|
                0 <= k < colors@.len() ==> {
                    let st = #[trigger] g.gradient_stops@[k];
                    st.pos_num == k && st.pos_den == m - 1 && st.color == colors@[k]
                }
            &&& g.wf()
        }),
{
    let rem = vstd::slice::slice_subrange(t, le, t.len());
    let dir = pick_direction(rem, 0);
    let m = colors.len();
    let mut stops: Vec<GradientStop> = Vec::new();
    let mut k: usize = 0;
    while k < m
        invariant
            k <= m,
            m == colors@.len(),
            m >= 2,
            stops@.len() == k,
            forall|j: int| 0 <= j < colors@.len() ==> (#[trigger] colors@[j]).wf(),
            forall|j: int|
                0 <= j < k ==> (#[trigger] stops@[j]).pos_num == j && stops@[j].pos_den == m - 1
                    && stops@[j].color == colors@[j],
        decreases m - k,
    {
        stops.push(GradientStop { pos_num: k, pos_den: m - 1, color: colors[k] });
        k = k + 1;
    }
    Gradient { direction: dir, gradient_stops: stops }
}

/// Parses a colour expression given as raw bytes.
#[verifier::rlimit(100)]
fn parse_color_bytes(
    s: &[u8],
    is_active: Option<bool>,
    accent: Option<(u8, u8, u8)>,
) -> (r: Result<Color, WinColorError>)
    ensures
        spec_color_matches(spec_parse_color(s@, is_active, accent), r),
    decreases s@.len(),
{
    let lowered = lower_bytes(s);
    let t = crate::token::trimmed_sub(lowered.as_slice(), 0, lowered.len());
    proof {
        assert(lowered@.subrange(0, lowered@.len() as int) =~= lowered@);
    }
    if starts_with_bytes(t, &[103, 114, 97, 100, 105, 101, 110, 116, 40]) {
        proof {
            assert([103u8, 114u8, 97u8, 100u8, 105u8, 101u8, 110u8, 116u8, 40u8]@ =~= seq![
                103u8,
                114u8,
                97u8,
                100u8,
                105u8,
                101u8,
                110u8,
                116u8,
                40u8,
            ]);
        }
        let end = if t[t.len() - 1] == 41 {
            t.len() - 1
        } else {
            t.len()
        };
        let inner = vstd::slice::slice_subrange(t, 9, end);
        parse_color_bytes(inner, is_active, accent)
    } else {
        parse_scanned(t, is_active, accent)
    }
}

/// Scans normalized text for colour tokens and builds the colour.
#[verifier::rlimit(100)]
fn parse_scanned(t: &[u8], is_active: Option<bool>, accent: Option<(u8, u8, u8)>) -> (r: Result<
    Color,
    WinColorError,
>)
    ensures
        spec_color_matches(spec_parse_scanned(t@, is_active, accent), r),
{
    let toks = scan_tokens(t, 0);
    let ghost toksv = spec_spans(toks@);
    proof {
        assert(toksv == spec_scan(t@, 0));
    }
    if toks.len() == 0 {
        Err(WinColorError::NoValidColors)
    } else if toks.len() == 1 {
        let (a, b) = toks[0];
        proof {
            assert(toksv[0] == (a as int, b as int));
        }
        let tok = vstd::slice::slice_subrange(t, a, b);
        match parse_token_bytes(tok, is_active, accent) {
            Ok(c) => Ok(Color::Solid(Solid { color: c })),
            Err(e) => Err(e),
        }
    } else {
        let colors = collect_colors(t, &toks, 0, is_active, accent);
        let ghost cv = spec_token_colors(t@, toksv, 0, is_active, accent);
        proof {
            assert(colors@.map_values(
                |c: Rgba| (c.r as int, c.g as int, c.b as int, c.a as int),
            ) == cv);
            assert(colors@.len() == cv.len());
            assert forall|k: int| 0 <= k < colors@.len() implies cv[k] == (
                (#[trigger] colors@[k]).r as int,
                colors@[k].g as int,
                colors@[k].b as int,
                colors@[k].a as int,
            ) by {
                assert(cv[k] == colors@.map_values(
                    |c: Rgba| (c.r as int, c.g as int, c.b as int, c.a as int),
                )[k]);
            }
        }
        if colors.len() == 0 {
            Err(WinColorError::NoValidColors)
        } else if colors.len() == 1 {
            Ok(Color::Solid(Solid { color: colors[0] }))
        } else {
            let le = toks[toks.len() - 1].1;
            proof {
                assert(toksv[toksv.len() - 1] == (
                    toks@[toks@.len() - 1].0 as int,
                    le as int,
                ));
            }
            Ok(Color::Gradient(build_gradient(t, le, colors)))
        }
    }
}

/// Parses a colour expression. `is_active` selects the accent variant;
/// `accent` is the platform triple, or `None` where the query failed.
pub fn parse_color(
    s: &str,
    is_active: Option<bool>,
    accent: Option<(u8, u8, u8)>,
) -> (r: Result<Color, WinColorError>)
    ensures
        spec_color_matches(spec_parse_color(s.spec_bytes(), is_active, accent), r),
{
    let bytes = s.as_bytes_vec();
    parse_color_bytes(bytes.as_slice(), is_active, accent)
}

/// Parses a colour expression with no accent available and the default
/// (inactive) accent state.
pub fn parse_color_string(s: &str) -> (r: Result<Color, WinColorError>)
    ensures
        spec_color_matches(spec_parse_color(s.spec_bytes(), None, None), r),
{
    parse_color(s, None, None)
}

/// Parses the entries `colors[k..]` as expressions, keeping the solid
/// results with their original indices.
fn collect_mapping(
    colors: &Vec<String>,
    k: usize,
    is_active: Option<bool>,
    accent: Option<(u8, u8, u8)>,
) -> (r: Vec<(usize, Rgba)>)
    requires
        k <= colors@.len(),
    ensures
        r@.map_values(
            |p: (usize, Rgba)|
                (p.0 as int, (p.1.r as int, p.1.g as int, p.1.b as int, p.1.a as int)),
        ) == spec_mapping_colors(
            colors@.map_values(|s: String| vstd::utf8::encode_utf8(s@)),
            k as int,
            is_active,
            accent,
        ),
        forall|j: int|
            0 <= j < r@.len() ==> k <= (#[trigger] r@[j]).0 < colors@.len() && r@[j].1.wf(),
        forall|j: int, l: int| 0 <= j < l < r@.len() ==> (#[trigger] r@[j]).0 < (#[trigger] r@[l]).0,
    decreases colors@.len() - k,
{
    let ghost cb = colors@.map_values(|s: String| vstd::utf8::encode_utf8(s@));
    if k >= colors.len() {
        let r: Vec<(usize, Rgba)> = Vec::new();
        proof {
            assert(r@.map_values(
                |p: (usize, Rgba)|
                    (p.0 as int, (p.1.r as int, p.1.g as int, p.1.b as int, p.1.a as int)),
            ) =~= spec_mapping_colors(cb, k as int, is_active, accent));
        }
        return r;
    }
    let entry = &colors[k];
    let mut rest = collect_mapping(colors, k + 1, is_active, accent);
    match parse_color(entry.as_str(), is_active, accent) {
        Ok(Color::Solid(sol)) => {
            let mut r: Vec<(usize, Rgba)> = Vec::new();
            r.push((k, sol.color));
            r.append(&mut rest);
            proof {
                assert(cb[k as int] == vstd::utf8::encode_utf8(colors@[k as int]@));
                assert(r@.map_values(
                    |p: (usize, Rgba)|
                        (p.0 as int, (p.1.r as int, p.1.g as int, p.1.b as int, p.1.a as int)),
                ) =~= seq![
                    (
                        k as int,
                        (
                            sol.color.r as int,
                            sol.color.g as int,
                            sol.color.b as int,
                            sol.color.a as int,
                        ),
                    ),
                ] + spec_mapping_colors(cb, k as int + 1, is_active, accent));
            }
            r
        },
        Ok(Color::Gradient(_)) => {
            proof {
                assert(cb[k as int] == vstd::utf8::encode_utf8(colors@[k as int]@));
            }
            rest
        },
        Err(_) => {
            proof {
                assert(cb[k as int] == vstd::utf8::encode_utf8(colors@[k as int]@));
            }
            rest
        },
    }
}

/// Parses a structured colour mapping with the given accent context.
#[verifier::rlimit(100)]
pub fn parse_color_mapping_with(
    s: &ColorMapping,
    is_active: Option<bool>,
    accent: Option<(u8, u8, u8)>,
) -> (r: Result<Color, WinColorError>)
    ensures
        spec_color_matches(spec_parse_color_mapping(*s, is_active, accent), r),
{
    let n = s.colors.len();
    if n == 0 {
        Ok(Color::Solid(Solid { color: Rgba { r: 0, g: 0, b: 0, a: 0 } }))
    } else if n == 1 {
        let entry = &s.colors[0];
        proof {
            let cb = s.colors@.map_values(|t: String| vstd::utf8::encode_utf8(t@));
            assert(cb[0] == vstd::utf8::encode_utf8(s.colors@[0]@));
        }
        parse_color(entry.as_str(), is_active, accent)
    } else {
        let picked = collect_mapping(&s.colors, 0, is_active, accent);
        if picked.len() == 0 {
            Err(WinColorError::NoValidColors)
        } else {
            match parse_gradient_direction(&s.direction) {
                Err(e) => Err(e),
                Ok(dir) => {
                    if picked.len() == 1 {
                        let (_, c) = picked[0];
                        Ok(Color::Solid(Solid { color: c }))
                    } else {
                        let m = picked.len();
                        let mut stops: Vec<GradientStop> = Vec::new();
                        let mut k: usize = 0;
                        while k < m
                            invariant
                                k <= m,
                                m == picked@.len(),
                                m >= 2,
                                n == s.colors@.len(),
                                stops@.len() == k,
                                forall|j: int|
                                    0 <= j < picked@.len() ==> (#[trigger] picked@[j]).0 < n
                                        && picked@[j].1.wf(),
                                forall|j: int, l: int|
                                    0 <= j < l < picked@.len() ==> (#[trigger] picked@[j]).0 < (
                                    #[trigger] picked@[l]).0,
                                forall|j: int|
                                    0 <= j < k ==> (#[trigger] stops@[j]).pos_num == picked@[j].0
                                        && stops@[j].pos_den == n - 1 && stops@[j].color
                                        == picked@[j].1,
                            decreases m - k,
                        {
                            let (idx, c) = picked[k];
                            stops.push(GradientStop { pos_num: idx, pos_den: n - 1, color: c });
                            k = k + 1;
                        }
                        Ok(Color::Gradient(Gradient { direction: dir, gradient_stops: stops }))
                    }
                },
            }
        }
    }
}

/// Parses a structured colour mapping with no accent available.
pub fn parse_color_mapping(s: ColorMapping) -> (r: Result<Color, WinColorError>)
    ensures
        spec_color_matches(spec_parse_color_mapping(s, None, None), r),
{
    parse_color_mapping_with(&s, None, None)
}

impl crate::GlobalColorImpl for GlobalColor {
    open spec fn spec_to_color(
        &self,
        is_active: Option<bool>,
        accent: Option<(u8, u8, u8)>,
    ) -> ColorOutcome {
        spec_to_color(*self, is_active, accent)
    }

    fn to_color(&self, is_active: Option<bool>, accent: Option<(u8, u8, u8)>) -> (r: Result<
        Color,
        WinColorError,
    >) {
        match self {
            GlobalColor::String(s) => parse_color(s.as_str(), is_active, accent),
            GlobalColor::Mapping(m) => parse_color_mapping_with(m, is_active, accent),
        }
    }
}


/// Evenly spread gradient stops: whenever parsing an expression yields a
/// gradient of `n` stops, stop `k` sits at exactly the fraction
/// `k / (n - 1)` of the way along the gradient line — the first stop at
/// zero, the last at one, the positions strictly increasing on a common
/// denominator.
pub proof fn lemma_gradient_stop_positions(
    s: Seq<u8>,
    is_active: Option<bool>,
    accent: Option<(u8, u8, u8)>,
    r: Result<Color, WinColorError>,
)
    requires
        spec_color_matches(spec_parse_color(s, is_active, accent), r),
        r matches Ok(Color::Gradient(g)),
    ensures
        ({
            let g = r->Ok_0->Gradient_0;
            let n = g.gradient_stops@.len() as int;
            &&& n >= 2
            &&& forall|k: int|
                0 <= k < n ==> (#[trigger] g.gradient_stops@[k]).pos_num == k
                    && g.gradient_stops@[k].pos_den == n - 1
            &&& g.gradient_stops@[0].pos_num == 0
            &&& g.gradient_stops@[n - 1].pos_num == n - 1
            &&& forall|k: int|
                0 <= k < n - 1 ==> (#[trigger] g.gradient_stops@[k]).pos_num
                    < g.gradient_stops@[k + 1].pos_num
        }),
    decreases s.len(),
{
    let o = spec_parse_color(s, is_active, accent);
    let t = spec_trim_tok(spec_lower(s));
    if spec_starts_with(
        t,
        seq![103u8, 114u8, 97u8, 100u8, 105u8, 101u8, 110u8, 116u8, 40u8],
    ) {
        let end = if t.last() == 41 {
            t.len() - 1
        } else {
            t.len() as int
        };
        let inner = t.subrange(9, end);
        if inner.len() < s.len() {
            lemma_gradient_stop_positions(inner, is_active, accent, r);
        }
    } else {
        let g = r->Ok_0->Gradient_0;
        let n = g.gradient_stops@.len() as int;
        assert(o is Many);
        let stops = o->Many_stops;
        assert forall|k: int| 0 <= k < n implies (#[trigger] g.gradient_stops@[k]).pos_num == k
            && g.gradient_stops@[k].pos_den == n - 1 by {
            assert(stops[k].0 == k && stops[k].1 == n - 1);
        }
    }
}

impl Color {
    /// Parses a global colour definition into a normalized colour.
    pub fn from_global_color(
        color: &GlobalColor,
        is_active: Option<bool>,
        accent: Option<(u8, u8, u8)>,
    ) -> (r: Result<Color, WinColorError>)
        ensures
            spec_color_matches(spec_to_color(*color, is_active, accent), r),
    {
        match color {
            GlobalColor::String(s) => parse_color(s.as_str(), is_active, accent),
            GlobalColor::Mapping(m) => parse_color_mapping_with(m, is_active, accent),
        }
    }
}

} // verus!
