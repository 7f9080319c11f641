//! The colour token parser.
//!
//! A single token is parsed by an ordered list of matchers: a hex run after
//! `#`, an `rgb(...)` or `rgba(...)` call, a `darken(...)` or
//! `lighten(...)` call whose first argument is itself a colour token, the
//! literal `accent`, and finally a bare identifier looked up in the named
//! colour table (an unknown name falls back to opaque black). A token that
//! matches a shape but is malformed yields that shape's error; a token that
//! matches no shape at all is unrecognized.

use vstd::prelude::*;
use vstd::string::StrSliceExecFns;
use vstd::string::StringSliceAdditionalSpecFns;
use crate::error::WinColorError;
use crate::fixed::lemma_rdiv_bound;
use crate::fixed::lemma_rdiv_nonneg;
use crate::fixed::rdiv64;
use crate::fixed::spec_rdiv64;
use crate::hex::parse_hex;
use crate::hex::spec_parse_hex;
use crate::hsl::darken;
use crate::hsl::lighten;
use crate::hsl::spec_shift_lightness;
use crate::named::named_color;
use crate::named::spec_named_color;
use crate::num::NUM_BOUND;
use crate::num::parse_number;
use crate::num::spec_parse_number;
use crate::rgba::BYTE_UNIT;
use crate::rgba::CHANNEL_SCALE;
use crate::rgba::Rgba;
use crate::rgba::clamp_channel;
use crate::rgba::spec_clamp_channel;
use crate::utils::bytes_to_string;
use crate::utils::lower_bytes;
use crate::utils::spec_lower;
use crate::utils::spec_trim;
use crate::utils::trim_range;

verus! {

/// What parsing one colour token yields: a colour value, a shaped error
/// with its offending text, or no recognized shape at all.
pub enum TokenOutcome {
    /// A colour, as four channel values.
    Value { r: int, g: int, b: int, a: int },
    /// A hex token with a bad length or digit; the text after `#`.
    BadHex { text: Seq<u8> },
    /// A malformed `rgb()` / `rgba()` call; the whole token.
    BadRgb { text: Seq<u8> },
    /// A malformed `darken()` (`true`) or `lighten()` (`false`) call.
    BadShade { text: Seq<u8>, darkening: bool },
    /// The `accent` token without a platform accent value.
    MissingAccent,
    /// No recognized token shape.
    Unrecognized,
}

/// Whether `s` starts with `t`.
pub open spec fn spec_starts_with(s: Seq<u8>, t: Seq<u8>) -> bool {
    t.len() <= s.len() && s.subrange(0, t.len() as int) == t
}

/// The position of the first comma of `s` at paren depth zero, at or after
/// `i` with incoming depth `depth`.
pub open spec fn spec_find_top_comma(s: Seq<u8>, i: int, depth: int) -> Option<int>
    decreases s.len() - i,
{
    if i < 0 || i >= s.len() {
        None
    } else if s[i] == 40 {
        spec_find_top_comma(s, i + 1, depth + 1)
    } else if s[i] == 41 {
        spec_find_top_comma(s, i + 1, depth - 1)
    } else if s[i] == 44 && depth == 0 {
        Some(i)
    } else {
        spec_find_top_comma(s, i + 1, depth)
    }
}

/// `spec_trim`, with its result length visibly bounded by the input's.
pub open spec fn spec_trim_tok(s: Seq<u8>) -> Seq<u8> {
    let t = spec_trim(s);
    if t.len() <= s.len() {
        t
    } else {
        s
    }
}

/// The accent colour: the platform triple at full opacity when active,
/// else the desaturated variant `avg / 1.5 + channel / 10` per channel.
pub open spec fn spec_accent_color(rgb: (u8, u8, u8), is_active: Option<bool>) -> (
    int,
    int,
    int,
    int,
) {
    let rf = rgb.0 * BYTE_UNIT;
    let gf = rgb.1 * BYTE_UNIT;
    let bf = rgb.2 * BYTE_UNIT;
    if is_active == Some(true) {
        (rf, gf, bf, CHANNEL_SCALE as int)
    } else {
        let av = spec_rdiv64(rf + gf + bf, 3);
        (
            spec_rdiv64(2 * av, 3) + spec_rdiv64(rf, 10),
            spec_rdiv64(2 * av, 3) + spec_rdiv64(gf, 10),
            spec_rdiv64(2 * av, 3) + spec_rdiv64(bf, 10),
            CHANNEL_SCALE as int,
        )
    }
}

/// An `rgb()` component: a percentage (`true`) scaled by one hundredth, or
/// a byte-scale number (`false`) scaled by one 255th, as a raw channel.
pub open spec fn spec_percent_or_255(p: Seq<u8>) -> Option<(int, bool)> {
    if p.len() > 0 && p.last() == 37 {
        match spec_parse_number(p.subrange(0, p.len() - 1)) {
            Some(v) => Some((v * 255, true)),
            None => None,
        }
    } else {
        match spec_parse_number(p) {
            Some(v) => Some((v * 100, false)),
            None => None,
        }
    }
}

/// An alpha component: a percentage scaled by one hundredth, or a bare
/// number taken as is, as a raw channel.
pub open spec fn spec_percent_or_float(p: Seq<u8>) -> Option<(int, bool)> {
    if p.len() > 0 && p.last() == 37 {
        match spec_parse_number(p.subrange(0, p.len() - 1)) {
            Some(v) => Some((v * 255, true)),
            None => None,
        }
    } else {
        match spec_parse_number(p) {
            Some(v) => Some((v * 25_500, false)),
            None => None,
        }
    }
}

/// A `darken()` / `lighten()` percentage: an optional `%` is dropped, and
/// an unparsable value defaults to ten percent.
pub open spec fn spec_shade_pct(p: Seq<u8>) -> int {
    let body = if p.len() > 0 && p.last() == 37 {
        p.subrange(0, p.len() - 1)
    } else {
        p
    };
    match spec_parse_number(body) {
        Some(v) => v,
        None => 1_000_000,
    }
}

/// Whether every byte of `s` is a small ASCII letter.
pub open spec fn spec_all_letters(s: Seq<u8>) -> bool {
    forall|i: int| 0 <= i < s.len() ==> 97 <= #[trigger] s[i] <= 122
}

/// What parsing the `rgb()` / `rgba()` call `whole` with argument text
/// `inner` yields: exactly three components (four with alpha, when
/// `allow4`), the first three all percentages or all byte-scale, each
/// clamped to the channel range; anything else is a bad call.
pub open spec fn spec_parse_rgb_call(whole: Seq<u8>, inner: Seq<u8>, allow4: bool) -> TokenOutcome {
    let c1 = spec_find_top_comma(inner, 0, 0);
    match c1 {
        None => TokenOutcome::BadRgb { text: whole },
        Some(e1) => {
            let c2 = spec_find_top_comma(inner, e1 + 1, 0);
            match c2 {
                None => TokenOutcome::BadRgb { text: whole },
                Some(e2) => {
                    let p1 = spec_trim_tok(inner.subrange(0, e1));
                    let p2 = spec_trim_tok(inner.subrange(e1 + 1, e2));
                    let c3 = spec_find_top_comma(inner, e2 + 1, 0);
                    match c3 {
                        None => {
                            let p3 = spec_trim_tok(
                                inner.subrange(e2 + 1, inner.len() as int),
                            );
                            spec_rgb_components(whole, p1, p2, p3, None)
                        },
                        Some(e3) => {
                            if !allow4 || spec_find_top_comma(inner, e3 + 1, 0) is Some {
                                TokenOutcome::BadRgb { text: whole }
                            } else {
                                let p3 = spec_trim_tok(inner.subrange(e2 + 1, e3));
                                let p4 = spec_trim_tok(
                                    inner.subrange(e3 + 1, inner.len() as int),
                                );
                                spec_rgb_components(whole, p1, p2, p3, Some(p4))
                            }
                        },
                    }
                },
            }
        },
    }
}

/// The colour of three `rgb()` components and an optional alpha: all three
/// must parse in the same representation; channels are clamped.
pub open spec fn spec_rgb_components(
    whole: Seq<u8>,
    p1: Seq<u8>,
    p2: Seq<u8>,
    p3: Seq<u8>,
    p4: Option<Seq<u8>>,
) -> TokenOutcome {
    let r = spec_percent_or_255(p1);
    let g = spec_percent_or_255(p2);
    let b = spec_percent_or_255(p3);
    let a = match p4 {
        Some(p) => spec_percent_or_float(p),
        None => Some((CHANNEL_SCALE as int, true)),
    };
    if r is Some && g is Some && b is Some && a is Some && r->Some_0.1 == g->Some_0.1
        && g->Some_0.1 == b->Some_0.1 {
        TokenOutcome::Value {
            r: spec_clamp_channel(r->Some_0.0),
            g: spec_clamp_channel(g->Some_0.0),
            b: spec_clamp_channel(b->Some_0.0),
            a: spec_clamp_channel(a->Some_0.0),
        }
    } else {
        TokenOutcome::BadRgb { text: whole }
    }
}

/// What parsing the colour token `s` yields, for the given active state
/// and platform accent triple. The matchers are tried in order: hex,
/// `rgb()`, `rgba()`, `darken()`, `lighten()`, the `accent` literal, and a
/// bare identifier (an unknown identifier is opaque black).
#[verifier::opaque]
pub open spec fn spec_parse_token(
    s: Seq<u8>,
    is_active: Option<bool>,
    accent: Option<(u8, u8, u8)>,
) -> TokenOutcome
    decreases s.len(),
{
    if s.len() > 0 && s[0] == 35 {
        match spec_parse_hex(s.subrange(1, s.len() as int)) {
            Some(b4) => TokenOutcome::Value {
                r: b4.0 * BYTE_UNIT,
                g: b4.1 * BYTE_UNIT,
                b: b4.2 * BYTE_UNIT,
                a: b4.3 * BYTE_UNIT,
            },
            None => TokenOutcome::BadHex { text: s.subrange(1, s.len() as int) },
        }
    } else if spec_starts_with(s, seq![114u8, 103u8, 98u8, 97u8, 40u8]) {
        if s.last() == 41 {
            spec_parse_rgb_call(s, s.subrange(5, s.len() - 1), true)
        } else {
            TokenOutcome::BadRgb { text: s }
        }
    } else if spec_starts_with(s, seq![114u8, 103u8, 98u8, 40u8]) {
        if s.last() == 41 {
            spec_parse_rgb_call(s, s.subrange(4, s.len() - 1), false)
        } else {
            TokenOutcome::BadRgb { text: s }
        }
    } else if spec_starts_with(s, seq![100u8, 97u8, 114u8, 107u8, 101u8, 110u8, 40u8]) {
        if s.last() == 41 {
            let inner = s.subrange(7, s.len() - 1);
            spec_parse_shade(s, inner, true, is_active, accent)
        } else {
            TokenOutcome::BadShade { text: s, darkening: true }
        }
    } else if spec_starts_with(s, seq![108u8, 105u8, 103u8, 104u8, 116u8, 101u8, 110u8, 40u8]) {
        if s.last() == 41 {
            let inner = s.subrange(8, s.len() - 1);
            spec_parse_shade(s, inner, false, is_active, accent)
        } else {
            TokenOutcome::BadShade { text: s, darkening: false }
        }
    } else if s == seq![97u8, 99u8, 99u8, 101u8, 110u8, 116u8] {
        match accent {
            Some(rgb) => {
                let c = spec_accent_color(rgb, is_active);
                TokenOutcome::Value { r: c.0, g: c.1, b: c.2, a: c.3 }
            },
            None => TokenOutcome::MissingAccent,
        }
    } else if s.len() > 0 && spec_all_letters(s) {
        match spec_named_color(s) {
            Some(rgb) => TokenOutcome::Value {
                r: rgb.0 * BYTE_UNIT,
                g: rgb.1 * BYTE_UNIT,
                b: rgb.2 * BYTE_UNIT,
                a: 255 * BYTE_UNIT,
            },
            None => TokenOutcome::Value { r: 0, g: 0, b: 0, a: CHANNEL_SCALE as int },
        }
    } else {
        TokenOutcome::Unrecognized
    }
}

/// What a `darken()` / `lighten()` call yields: the first top-level
/// argument is a colour token parsed recursively, the optional second a
/// percentage; the colour's lightness is shifted by it. A bad argument
/// count or a failing inner colour is a bad call.
pub open spec fn spec_parse_shade(
    whole: Seq<u8>,
    inner: Seq<u8>,
    darkening: bool,
    is_active: Option<bool>,
    accent: Option<(u8, u8, u8)>,
) -> TokenOutcome
    decreases inner.len() + 1,
{
    let c1 = spec_find_top_comma(inner, 0, 0);
    let e1 = match c1 {
        Some(k) => if 0 <= k <= inner.len() {
            k
        } else {
            inner.len() as int
        },
        None => inner.len() as int,
    };
    let color_tok = spec_trim_tok(inner.subrange(0, e1));
    let pct_ok = match c1 {
        Some(k) => if 0 <= k < inner.len() {
            spec_find_top_comma(inner, k + 1, 0) is None
        } else {
            true
        },
        None => true,
    };
    let pct = match c1 {
        Some(k) => if 0 <= k < inner.len() {
            spec_shade_pct(spec_trim_tok(inner.subrange(k + 1, inner.len() as int)))
        } else {
            1_000_000
        },
        None => 1_000_000,
    };
    if !pct_ok {
        TokenOutcome::BadShade { text: whole, darkening }
    } else {
        match spec_parse_token(color_tok, is_active, accent) {
            TokenOutcome::Value { r, g, b, a } => {
                if 0 <= r <= CHANNEL_SCALE && 0 <= g <= CHANNEL_SCALE && 0 <= b <= CHANNEL_SCALE
                    && 0 <= a <= CHANNEL_SCALE {
                    let c = Rgba { r: r as i64, g: g as i64, b: b as i64, a: a as i64 };
                    let shifted = spec_shift_lightness(c, pct, darkening);
                    TokenOutcome::Value {
                        r: shifted.0,
                        g: shifted.1,
                        b: shifted.2,
                        a: shifted.3,
                    }
                } else {
                    TokenOutcome::BadShade { text: whole, darkening }
                }
            },
            _ => TokenOutcome::BadShade { text: whole, darkening },
        }
    }
}

/// Whether the error result `r` carries the outcome's error: same kind,
/// and (for ASCII text) the same offending substring.
pub open spec fn spec_token_error_matches(o: TokenOutcome, e: WinColorError) -> bool {
    match o {
        TokenOutcome::Value { .. } => false,
        TokenOutcome::BadHex { text } => e matches WinColorError::InvalidHex(t)
            && spec_ascii_text_matches(text, t@),
        TokenOutcome::BadRgb { text } => e matches WinColorError::InvalidRgb(t)
            && spec_ascii_text_matches(text, t@),
        TokenOutcome::BadShade { text, darkening } => e matches WinColorError::InvalidDarkenOrLighten(
            t,
            d,
        ) && d == darkening && spec_ascii_text_matches(text, t@),
        TokenOutcome::MissingAccent => e is InvalidAccent,
        TokenOutcome::Unrecognized => e is InvalidUnknown,
    }
}

/// For ASCII bytes, the carried text spells exactly those bytes.
pub open spec fn spec_ascii_text_matches(bytes: Seq<u8>, chars: Seq<char>) -> bool {
    (forall|i: int| 0 <= i < bytes.len() ==> bytes[i] < 128) ==> chars == bytes.map_values(
        |b: u8| b as char,
    )
}

/// What [`parse_color_token`] yields on the string `s`: the token parser
/// applied to the trimmed, lowercased text.
pub open spec fn spec_parse_color_token(
    s: Seq<u8>,
    is_active: Option<bool>,
    accent: Option<(u8, u8, u8)>,
) -> TokenOutcome {
    spec_parse_token(spec_trim_tok(spec_lower(s)), is_active, accent)
}

/// Whether `s` starts with `t`.
pub fn starts_with_bytes(s: &[u8], t: &[u8]) -> (r: bool)
    ensures
        r == spec_starts_with(s@, t@),
{
    if t.len() > s.len() {
        return false;
    }
    let head = vstd::slice::slice_subrange(s, 0, t.len());
    crate::direction::eq_bytes(head, t)
}

/// Finds the first comma at paren depth zero, at or after `i`.
fn find_top_comma(s: &[u8], i: usize, depth: Ghost<int>, d: i128) -> (r: Option<usize>)
    requires
        i <= s@.len(),
        d == depth@,
        -(i as int) - 1 <= d <= i as int + 1,
    ensures
        match r {
            Some(j) => Some(j as int) == spec_find_top_comma(s@, i as int, depth@) && i <= j
                < s@.len(),
            None => spec_find_top_comma(s@, i as int, depth@) is None,
        },
    decreases s@.len() - i,
{
    if i >= s.len() {
        None
    } else {
        let b = s[i];
        if b == 40 {
            find_top_comma(s, i + 1, Ghost(depth@ + 1), d + 1)
        } else if b == 41 {
            find_top_comma(s, i + 1, Ghost(depth@ - 1), d - 1)
        } else if b == 44 && d == 0 {
            Some(i)
        } else {
            find_top_comma(s, i + 1, depth, d)
        }
    }
}

/// The trimmed bytes of `s[from..to]`.
pub fn trimmed_sub<'a>(s: &'a [u8], from: usize, to: usize) -> (r: &'a [u8])
    requires
        from <= to <= s@.len(),
    ensures
        r@ == spec_trim_tok(s@.subrange(from as int, to as int)),
        r@.len() <= to - from,
{
    let (a, z) = crate::utils::trim_range(s, from, to);
    let piece = vstd::slice::slice_subrange(s, a, z);
    proof {
        let sub = s@.subrange(from as int, to as int);
        assert(piece@ == spec_trim(sub));
        assert(spec_trim(sub).len() <= sub.len());
    }
    piece
}

/// Parses an `rgb()` component: a percentage or a byte-scale number.
fn percent_or_255(p: &[u8]) -> (r: Option<(i64, bool)>)
    ensures
        match r {
            Some(v) => {
                &&& spec_percent_or_255(p@) matches Some(sv)
                &&& v.0 as int == sv.0
                &&& v.1 == sv.1
            },
            None => spec_percent_or_255(p@) is None,
        },
{
    if p.len() > 0 && p[p.len() - 1] == 37 {
        match parse_number(vstd::slice::slice_subrange(p, 0, p.len() - 1)) {
            Some(v) => Some((v * 255, true)),
            None => None,
        }
    } else {
        match parse_number(p) {
            Some(v) => Some((v * 100, false)),
            None => None,
        }
    }
}

/// Parses an alpha component: a percentage or a bare number.
fn percent_or_float(p: &[u8]) -> (r: Option<(i64, bool)>)
    ensures
        match r {
            Some(v) => {
                &&& spec_percent_or_float(p@) matches Some(sv)
                &&& v.0 as int == sv.0
                &&& v.1 == sv.1
            },
            None => spec_percent_or_float(p@) is None,
        },
{
    if p.len() > 0 && p[p.len() - 1] == 37 {
        match parse_number(vstd::slice::slice_subrange(p, 0, p.len() - 1)) {
            Some(v) => Some((v * 255, true)),
            None => None,
        }
    } else {
        match parse_number(p) {
            Some(v) => Some((v * 25_500, false)),
            None => None,
        }
    }
}

/// Parses a `darken()` / `lighten()` percentage, ten percent by default.
fn shade_pct(p: &[u8]) -> (r: i64)
    ensures
        r as int == spec_shade_pct(p@),
        -NUM_BOUND <= r <= NUM_BOUND,
{
    let body: &[u8] = if p.len() > 0 && p[p.len() - 1] == 37 {
        vstd::slice::slice_subrange(p, 0, p.len() - 1)
    } else {
        vstd::slice::slice_subrange(p, 0, p.len())
    };
    proof {
        if !(p@.len() > 0 && p@.last() == 37) {
            assert(p@.subrange(0, p@.len() as int) =~= p@);
        }
    }
    match parse_number(body) {
        Some(v) => v,
        None => 1_000_000,
    }
}

/// Whether every byte of `s` is a small ASCII letter.
fn all_letters(s: &[u8]) -> (r: bool)
    ensures
        r == spec_all_letters(s@),
{
    let mut i: usize = 0;
    while i < s.len()
        invariant
            i <= s@.len(),
            forall|j: int| 0 <= j < i ==> 97 <= #[trigger] s@[j] <= 122,
        decreases s@.len() - i,
    {
        let b = s[i];
        if b < 97 || b > 122 {
            return false;
        }
        i = i + 1;
    }
    true
}

/// The accent colour for the platform triple: at full intensity when the
/// window is active, else the desaturated variant.
fn accent_color(rgb: (u8, u8, u8), is_active: Option<bool>) -> (c: Rgba)
    ensures
        (c.r as int, c.g as int, c.b as int, c.a as int) == spec_accent_color(rgb, is_active),
        c.wf(),
{
    let rf: i64 = (rgb.0 as i64) * BYTE_UNIT;
    let gf: i64 = (rgb.1 as i64) * BYTE_UNIT;
    let bf: i64 = (rgb.2 as i64) * BYTE_UNIT;
    let active = match is_active {
        Some(b) => b,
        None => false,
    };
    if active {
        Rgba { r: rf, g: gf, b: bf, a: CHANNEL_SCALE }
    } else {
        proof {
            lemma_rdiv_bound((rf + gf + bf) as int, 3, CHANNEL_SCALE as int);
            lemma_rdiv_nonneg((rf + gf + bf) as int, 3);
        }
        let av = rdiv64(rf + gf + bf, 3);
        proof {
            lemma_rdiv_bound(2 * av as int, 3, 1_700_000_000);
            lemma_rdiv_nonneg(2 * av as int, 3);
            lemma_rdiv_bound(rf as int, 10, 255_000_000);
            lemma_rdiv_bound(gf as int, 10, 255_000_000);
            lemma_rdiv_bound(bf as int, 10, 255_000_000);
            lemma_rdiv_nonneg(rf as int, 10);
            lemma_rdiv_nonneg(gf as int, 10);
            lemma_rdiv_nonneg(bf as int, 10);
        }
        let part = rdiv64(2 * av, 3);
        Rgba {
            r: part + rdiv64(rf, 10),
            g: part + rdiv64(gf, 10),
            b: part + rdiv64(bf, 10),
            a: CHANNEL_SCALE,
        }
    }
}

/// Parses the components of an `rgb()` / `rgba()` call.
fn parse_rgb_call(
    whole: &[u8],
    inner: &[u8],
    allow4: bool,
) -> (r: Result<Rgba, WinColorError>)
    ensures
        match r {
            Ok(c) => {
                &&& spec_parse_rgb_call(whole@, inner@, allow4) matches TokenOutcome::Value {
                    r: rr,
                    g,
                    b,
                    a,
                }
                &&& c.r == rr
                &&& c.g == g
                &&& c.b == b
                &&& c.a == a
                &&& c.wf()
            },
            Err(e) => spec_token_error_matches(spec_parse_rgb_call(whole@, inner@, allow4), e),
        },
{
    let c1 = find_top_comma(inner, 0, Ghost(0int), 0);
    let e1 = match c1 {
        Some(k) => k,
        None => {
            return Err(WinColorError::InvalidRgb(bytes_to_string(whole)));
        },
    };
    let n = inner.len();
    proof {
        assert(e1 < n);
    }
    let c2 = find_top_comma(inner, e1 + 1, Ghost(0int), 0);
    let e2 = match c2 {
        Some(k) => k,
        None => {
            return Err(WinColorError::InvalidRgb(bytes_to_string(whole)));
        },
    };
    let p1 = trimmed_sub(inner, 0, e1);
    let p2 = trimmed_sub(inner, e1 + 1, e2);
    proof {
        assert(e2 < n);
    }
    let c3 = find_top_comma(inner, e2 + 1, Ghost(0int), 0);
    let (p3, p4): (&[u8], Option<&[u8]>) = match c3 {
        None => (trimmed_sub(inner, e2 + 1, inner.len()), None),
        Some(e3) => {
            if !allow4 {
                return Err(WinColorError::InvalidRgb(bytes_to_string(whole)));
            }
            if find_top_comma(inner, e3 + 1, Ghost(0int), 0).is_some() {
                return Err(WinColorError::InvalidRgb(bytes_to_string(whole)));
            }
            (trimmed_sub(inner, e2 + 1, e3), Some(trimmed_sub(inner, e3 + 1, inner.len())))
        },
    };
    let rv = percent_or_255(p1);
    let gv = percent_or_255(p2);
    let bv = percent_or_255(p3);
    let av: Option<(i64, bool)> = match p4 {
        Some(p) => percent_or_float(p),
        None => Some((CHANNEL_SCALE, true)),
    };
    match (rv, gv, bv, av) {
        (Some(r0), Some(g0), Some(b0), Some(a0)) => {
            if r0.1 == g0.1 && g0.1 == b0.1 {
                Ok(
                    Rgba {
                        r: clamp_channel(r0.0),
                        g: clamp_channel(g0.0),
                        b: clamp_channel(b0.0),
                        a: clamp_channel(a0.0),
                    },
                )
            } else {
                Err(WinColorError::InvalidRgb(bytes_to_string(whole)))
            }
        },
        _ => Err(WinColorError::InvalidRgb(bytes_to_string(whole))),
    }
}

/// Parses one colour token given as trimmed, lowercased bytes.
pub fn parse_token_bytes(
    s: &[u8],
    is_active: Option<bool>,
    accent: Option<(u8, u8, u8)>,
) -> (r: Result<Rgba, WinColorError>)
    ensures
        match r {
            Ok(c) => {
                &&& spec_parse_token(s@, is_active, accent) matches TokenOutcome::Value {
                    r: rr,
                    g,
                    b,
                    a,
                }
                &&& c.r == rr
                &&& c.g == g
                &&& c.b == b
                &&& c.a == a
                &&& c.wf()
            },
            Err(e) => spec_token_error_matches(spec_parse_token(s@, is_active, accent), e),
        },
    decreases s@.len(),
{
    proof {
        reveal(spec_parse_token);
    }
    if s.len() > 0 && s[0] == 35 {
        let digits = vstd::slice::slice_subrange(s, 1, s.len());
        match parse_hex(digits) {
            Some(c) => Ok(c),
            None => Err(WinColorError::InvalidHex(bytes_to_string(digits))),
        }
    } else if starts_with_bytes(s, &[114, 103, 98, 97, 40]) {
        proof {
            assert([114u8, 103u8, 98u8, 97u8, 40u8]@ =~= seq![114u8, 103u8, 98u8, 97u8, 40u8]);
        }
        if s[s.len() - 1] == 41 {
            parse_rgb_call(s, vstd::slice::slice_subrange(s, 5, s.len() - 1), true)
        } else {
            Err(WinColorError::InvalidRgb(bytes_to_string(s)))
        }
    } else if starts_with_bytes(s, &[114, 103, 98, 40]) {
        proof {
            assert([114u8, 103u8, 98u8, 40u8]@ =~= seq![114u8, 103u8, 98u8, 40u8]);
        }
        if s[s.len() - 1] == 41 {
            parse_rgb_call(s, vstd::slice::slice_subrange(s, 4, s.len() - 1), false)
        } else {
            Err(WinColorError::InvalidRgb(bytes_to_string(s)))
        }
    } else if starts_with_bytes(s, &[100, 97, 114, 107, 101, 110, 40]) {
        proof {
            assert([100u8, 97u8, 114u8, 107u8, 101u8, 110u8, 40u8]@ =~= seq![
                100u8,
                97u8,
                114u8,
                107u8,
                101u8,
                110u8,
                40u8,
            ]);
        }
        if s[s.len() - 1] == 41 {
            parse_shade(s, 7, true, is_active, accent)
        } else {
            Err(WinColorError::InvalidDarkenOrLighten(bytes_to_string(s), true))
        }
    } else if starts_with_bytes(s, &[108, 105, 103, 104, 116, 101, 110, 40]) {
        proof {
            assert([108u8, 105u8, 103u8, 104u8, 116u8, 101u8, 110u8, 40u8]@ =~= seq![
                108u8,
                105u8,
                103u8,
                104u8,
                116u8,
                101u8,
                110u8,
                40u8,
            ]);
        }
        if s[s.len() - 1] == 41 {
            parse_shade(s, 8, false, is_active, accent)
        } else {
            Err(WinColorError::InvalidDarkenOrLighten(bytes_to_string(s), false))
        }
    } else if crate::direction::eq_bytes(s, &[97, 99, 99, 101, 110, 116]) {
        proof {
            assert([97u8, 99u8, 99u8, 101u8, 110u8, 116u8]@ =~= seq![
                97u8,
                99u8,
                99u8,
                101u8,
                110u8,
                116u8,
            ]);
        }
        match accent {
            Some(rgb) => Ok(accent_color(rgb, is_active)),
            None => Err(WinColorError::InvalidAccent),
        }
    } else {
        proof {
            assert([97u8, 99u8, 99u8, 101u8, 110u8, 116u8]@ =~= seq![
                97u8,
                99u8,
                99u8,
                101u8,
                110u8,
                116u8,
            ]);
        }
        if s.len() > 0 && all_letters(s) {
            match named_color(s) {
                Some(rgb) => Ok(Rgba::from_rgba8(rgb.0, rgb.1, rgb.2, 255)),
                None => Ok(Rgba::default_color()),
            }
        } else {
            Err(WinColorError::InvalidUnknown)
        }
    }
}

/// Parses a `darken()` / `lighten()` call: `s` is the whole token, whose
/// argument text starts at `open` and ends before the closing paren.
fn parse_shade(
    s: &[u8],
    open: usize,
    darkening: bool,
    is_active: Option<bool>,
    accent: Option<(u8, u8, u8)>,
) -> (r: Result<Rgba, WinColorError>)
    requires
        open == 7 || open == 8,
        open < s@.len(),
        s@.last() == 41,
    ensures
        match r {
            Ok(c) => {
                &&& spec_parse_shade(
                    s@,
                    s@.subrange(open as int, s@.len() - 1),
                    darkening,
                    is_active,
                    accent,
                ) matches TokenOutcome::Value { r: rr, g, b, a }
                &&& c.r == rr
                &&& c.g == g
                &&& c.b == b
                &&& c.a == a
                &&& c.wf()
            },
            Err(e) => spec_token_error_matches(
                spec_parse_shade(
                    s@,
                    s@.subrange(open as int, s@.len() - 1),
                    darkening,
                    is_active,
                    accent,
                ),
                e,
            ),
        },
    decreases s@.len(), 0nat,
{
    proof {
        reveal(spec_parse_token);
    }
    let inner = vstd::slice::slice_subrange(s, open, s.len() - 1);
    let c1 = find_top_comma(inner, 0, Ghost(0int), 0);
    let e1 = match c1 {
        Some(k) => k,
        None => inner.len(),
    };
    let color_tok = trimmed_sub(inner, 0, e1);
    let (pct_ok, pct): (bool, i64) = match c1 {
        Some(k) => {
            let ok = find_top_comma(inner, k + 1, Ghost(0int), 0).is_none();
            let p = shade_pct(trimmed_sub(inner, k + 1, inner.len()));
            (ok, p)
        },
        None => (true, 1_000_000),
    };
    if !pct_ok {
        return Err(WinColorError::InvalidDarkenOrLighten(bytes_to_string(s), darkening));
    }
    match parse_token_bytes(color_tok, is_active, accent) {
        Ok(c) => {
            let shifted = if darkening {
                darken(&c, pct)
            } else {
                lighten(&c, pct)
            };
            Ok(shifted)
        },
        Err(_) => Err(WinColorError::InvalidDarkenOrLighten(bytes_to_string(s), darkening)),
    }
}

/// Parses one colour token: the text is trimmed and lowercased, then tried
/// against the ordered matchers. `is_active` selects the accent variant;
/// `accent` is the platform triple, or `None` where the query failed.
pub fn parse_color_token(
    s: &str,
    is_active: Option<bool>,
    accent: Option<(u8, u8, u8)>,
) -> (r: Result<Rgba, WinColorError>)
    ensures
        match r {
            Ok(c) => {
                &&& spec_parse_color_token(s.spec_bytes(), is_active, accent)
                    matches TokenOutcome::Value { r: rr, g, b, a }
                &&& c.r == rr
                &&& c.g == g
                &&& c.b == b
                &&& c.a == a
                &&& c.wf()
            },
            Err(e) => spec_token_error_matches(
                spec_parse_color_token(s.spec_bytes(), is_active, accent),
                e,
            ),
        },
{
    let bytes = s.as_bytes_vec();
    let lowered = lower_bytes(bytes.as_slice());
    let tok = trimmed_sub(lowered.as_slice(), 0, lowered.len());
    proof {
        assert(lowered@.subrange(0, lowered@.len() as int) =~= lowered@);
    }
    parse_token_bytes(tok, is_active, accent)
}

} // verus!
