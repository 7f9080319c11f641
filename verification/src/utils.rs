//! Small string utilities: wrapper stripping, ASCII lowercasing and
//! trimming, and the byte-to-text decoding used for error payloads.

use vstd::prelude::*;
use vstd::string::StrSliceExecFns;

verus! {

/// Whether `p` is a prefix of `s`.
pub open spec fn spec_is_prefix(s: Seq<char>, p: Seq<char>) -> bool {
    p.len() <= s.len() && s.subrange(0, p.len() as int) == p
}

/// `s` with the first matching prefix removed, trying `prefixes[j..]` in
/// order.
pub open spec fn spec_strip_first_prefix(s: Seq<char>, prefixes: Seq<Seq<char>>, j: int) -> Seq<
    char,
>
    decreases prefixes.len() - j,
{
    if j < 0 || j >= prefixes.len() {
        s
    } else if spec_is_prefix(s, prefixes[j]) {
        s.subrange(prefixes[j].len() as int, s.len() as int)
    } else {
        spec_strip_first_prefix(s, prefixes, j + 1)
    }
}

/// What [`strip_string`] returns: the input with the first matching prefix
/// removed, then one trailing `suffix` character removed if present.
pub open spec fn spec_strip_string(s: Seq<char>, prefixes: Seq<Seq<char>>, suffix: char) -> Seq<
    char,
> {
    let stripped = spec_strip_first_prefix(s, prefixes, 0);
    if stripped.len() > 0 && stripped.last() == suffix {
        stripped.drop_last()
    } else {
        stripped
    }
}

/// Whether `p` is a prefix of `s`, comparing from character `i` on.
fn is_prefix_from(s: &str, p: &str, i: usize, Ghost(slen): Ghost<nat>, Ghost(plen): Ghost<nat>) -> (r:
    bool)
    requires
        slen == s@.len(),
        plen == p@.len(),
        plen <= slen,
        i <= plen,
        forall|k: int| 0 <= k < i ==> s@[k] == p@[k],
    ensures
        r == (s@.subrange(0, p@.len() as int) == p@),
    decreases plen - i,
{
    if i >= p.unicode_len() {
        proof {
            assert(s@.subrange(0, p@.len() as int) =~= p@);
        }
        true
    } else if s.get_char(i) == p.get_char(i) {
        is_prefix_from(s, p, i + 1, Ghost(slen), Ghost(plen))
    } else {
        proof {
            assert(s@.subrange(0, p@.len() as int) == p@ ==> s@.subrange(0, p@.len() as int)[i as int]
                == p@[i as int]);
        }
        false
    }
}

/// Whether `p` is a prefix of `s`.
fn is_prefix(s: &str, p: &str) -> (r: bool)
    ensures
        r == spec_is_prefix(s@, p@),
{
    if p.unicode_len() > s.unicode_len() {
        return false;
    }
    is_prefix_from(s, p, 0, Ghost(s@.len()), Ghost(p@.len()))
}

/// Removes the first matching prefix among `prefixes[j..]` from `result`.
fn strip_first_prefix(result: &str, prefixes: &[&str], j: usize) -> (r: String)
    requires
        j <= prefixes@.len(),
    ensures
        r@ == spec_strip_first_prefix(result@, prefixes@.map_values(|p: &str| p@), j as int),
    decreases prefixes@.len() - j,
{
    if j >= prefixes.len() {
        result.to_owned()
    } else {
        let p = prefixes[j];
        proof {
            assert(prefixes@.map_values(|q: &str| q@)[j as int] == p@);
        }
        if is_prefix(result, p) {
            result.substring_char(p.unicode_len(), result.unicode_len()).to_owned()
        } else {
            strip_first_prefix(result, prefixes, j + 1)
        }
    }
}

/// Removes the first matching prefix of `input` (only the first match
/// counts), then one trailing `suffix` character if one is there.
pub fn strip_string(input: String, prefixes: &[&str], suffix: char) -> (r: String)
    ensures
        r@ == spec_strip_string(input@, prefixes@.map_values(|p: &str| p@), suffix),
{
    let stripped = strip_first_prefix(input.as_str(), prefixes, 0);
    let n = stripped.as_str().unicode_len();
    if n > 0 && stripped.as_str().get_char(n - 1) == suffix {
        let r = stripped.as_str().substring_char(0, n - 1).to_owned();
        proof {
            assert(r@ =~= stripped@.drop_last());
        }
        r
    } else {
        stripped
    }
}

/// The byte `b` with an ASCII capital letter taken to its small form.
pub open spec fn spec_lower_byte(b: u8) -> u8 {
    if 65 <= b <= 90 {
        (b + 32) as u8
    } else {
        b
    }
}

/// `s` lowercased byte by byte, ASCII letters only.
pub open spec fn spec_lower(s: Seq<u8>) -> Seq<u8> {
    s.map_values(|b: u8| spec_lower_byte(b))
}

/// Whether `b` is ASCII whitespace.
pub open spec fn spec_is_space(b: u8) -> bool {
    b == 32 || b == 9 || b == 10 || b == 13 || b == 12
}

/// The first index at or after `i` holding something other than whitespace.
pub open spec fn spec_skip_space(s: Seq<u8>, i: int) -> int
    decreases s.len() - i,
{
    if i < 0 || i >= s.len() {
        s.len() as int
    } else if spec_is_space(s[i]) {
        spec_skip_space(s, i + 1)
    } else {
        i
    }
}

/// The index after the last non-whitespace byte before `j`.
pub open spec fn spec_rskip_space(s: Seq<u8>, j: int) -> int
    decreases j,
{
    if j <= 0 || j > s.len() {
        0
    } else if spec_is_space(s[j - 1]) {
        spec_rskip_space(s, j - 1)
    } else {
        j
    }
}

/// `s` with leading and trailing ASCII whitespace removed.
pub open spec fn spec_trim(s: Seq<u8>) -> Seq<u8> {
    let from = spec_skip_space(s, 0);
    let to = spec_rskip_space(s, s.len() as int);
    if from <= to {
        s.subrange(from, to)
    } else {
        Seq::empty()
    }
}

/// Lowercases ASCII letters in a byte string.
pub fn lower_bytes(s: &[u8]) -> (r: Vec<u8>)
    ensures
        r@ == spec_lower(s@),
{
    let mut out: Vec<u8> = Vec::new();
    let mut i: usize = 0;
    while i < s.len()
        invariant
            i <= s@.len(),
            out@ =~= s@.subrange(0, i as int).map_values(|b: u8| spec_lower_byte(b)),
        decreases s@.len() - i,
    {
        let b = s[i];
        let lb: u8 = if b >= 65 && b <= 90 {
            b + 32
        } else {
            b
        };
        out.push(lb);
        proof {
            assert(s@.subrange(0, i + 1).map_values(|b: u8| spec_lower_byte(b)) =~= s@.subrange(
                0,
                i as int,
            ).map_values(|b: u8| spec_lower_byte(b)).push(spec_lower_byte(s@[i as int])));
        }
        i = i + 1;
    }
    proof {
        assert(s@.subrange(0, s@.len() as int) =~= s@);
    }
    out
}

/// Finds the first non-whitespace position at or after `i`.
pub fn skip_space(s: &[u8], i: usize) -> (r: usize)
    requires
        i <= s@.len(),
    ensures
        r as int == spec_skip_space(s@, i as int),
        i <= r <= s@.len(),
    decreases s@.len() - i,
{
    if i >= s.len() {
        s.len()
    } else {
        let b = s[i];
        if b == 32 || b == 9 || b == 10 || b == 13 || b == 12 {
            skip_space(s, i + 1)
        } else {
            i
        }
    }
}

/// Finds the position after the last non-whitespace byte before `j`.
pub fn rskip_space(s: &[u8], j: usize) -> (r: usize)
    requires
        j <= s@.len(),
    ensures
        r as int == spec_rskip_space(s@, j as int),
        r <= j,
    decreases j,
{
    if j == 0 {
        0
    } else {
        let b = s[j - 1];
        if b == 32 || b == 9 || b == 10 || b == 13 || b == 12 {
            rskip_space(s, j - 1)
        } else {
            j
        }
    }
}

/// The backward whitespace skip never goes past its start.
proof fn lemma_rskip_le(s: Seq<u8>, j: int)
    requires
        0 <= j <= s.len(),
    ensures
        0 <= spec_rskip_space(s, j) <= j,
    decreases j,
{
    if j > 0 && spec_is_space(s[j - 1]) {
        lemma_rskip_le(s, j - 1);
    }
}

/// Whether the byte at `i` is ASCII whitespace.
fn space_at(s: &[u8], i: usize) -> (r: bool)
    requires
        i < s@.len(),
    ensures
        r == spec_is_space(s@[i as int]),
{
    let b = s[i];
    b == 32 || b == 9 || b == 10 || b == 13 || b == 12
}

/// The trimmed range of `s[from..to]`, as positions in `s`.
pub fn trim_range(s: &[u8], from: usize, to: usize) -> (r: (usize, usize))
    requires
        from <= to <= s@.len(),
    ensures
        from <= r.0 <= r.1 <= to,
        s@.subrange(r.0 as int, r.1 as int) == spec_trim(s@.subrange(from as int, to as int)),
{
    let ghost sub = s@.subrange(from as int, to as int);
    let mut a = from;
    while a < to && space_at(s, a)
        invariant
            from <= a <= to <= s@.len(),
            sub == s@.subrange(from as int, to as int),
            spec_skip_space(sub, 0) == spec_skip_space(sub, a - from),
        decreases to - a,
    {
        proof {
            assert(sub[a - from] == s@[a as int]);
        }
        a = a + 1;
    }
    proof {
        if a < to {
            assert(sub[a - from] == s@[a as int]);
        }
        assert(spec_skip_space(sub, a - from) == a - from);
    }
    let mut z = to;
    while z > a && space_at(s, z - 1)
        invariant
            from <= a <= z <= to <= s@.len(),
            sub == s@.subrange(from as int, to as int),
            spec_skip_space(sub, 0) == a - from,
            spec_rskip_space(sub, sub.len() as int) == spec_rskip_space(sub, z - from),
        decreases z,
    {
        proof {
            assert(sub[(z - 1) - from] == s@[z - 1]);
        }
        z = z - 1;
    }
    proof {
        let tf = spec_skip_space(sub, 0);
        let tt = spec_rskip_space(sub, sub.len() as int);
        if z > a {
            assert(sub[(z - 1) - from] == s@[z - 1]);
            assert(spec_rskip_space(sub, z - from) == z - from);
            assert(s@.subrange(a as int, z as int) =~= sub.subrange(tf, tt));
        } else {
            assert(z == a);
            lemma_rskip_le(sub, z - from);
            if tf <= tt {
                assert(spec_rskip_space(sub, z - from) == z - from);
                assert(s@.subrange(a as int, z as int) =~= sub.subrange(tf, tt));
            } else {
                assert(s@.subrange(a as int, z as int) =~= Seq::<u8>::empty());
            }
        }
    }
    (a, z)
}

/// Relies on `String::from_utf8_lossy`: bytes below 128 decode to exactly
/// the characters with those code points. Used only to put the offending
/// text into an error value.
#[verifier::external_body]
pub fn bytes_to_string(v: &[u8]) -> (r: String)
    ensures
        (forall|i: int| 0 <= i < v@.len() ==> v@[i] < 128) ==> r@ == v@.map_values(
            |b: u8| b as char,
        ),
{
    String::from_utf8_lossy(v).into_owned()
}

} // verus!
