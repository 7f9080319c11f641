//! Hex colour tokens: `#RGB`, `#RGBA`, `#RRGGBB` and `#RRGGBBAA`.
//!
//! The leading `#` is stripped by the caller; this module sees the digit
//! run. Three- and four-digit forms duplicate each nibble (`a` becomes
//! `aa`) before byte parsing; alpha is present only in the four- and
//! eight-digit forms and defaults to fully opaque. Any other length, or a
//! non-hex digit, is invalid.

use vstd::prelude::*;
use crate::rgba::BYTE_UNIT;
use crate::rgba::Rgba;

verus! {

/// Whether `b` is a lowercase ASCII hex digit.
pub open spec fn spec_is_hex_digit(b: u8) -> bool {
    (48 <= b <= 57) || (97 <= b <= 102)
}

/// The value of the hex digit `b`.
pub open spec fn spec_hex_val(b: u8) -> int
    recommends
        spec_is_hex_digit(b),
{
    if 48 <= b <= 57 {
        b - 48
    } else {
        b - 87
    }
}

/// Whether every byte of `s` is a lowercase ASCII hex digit.
pub open spec fn spec_all_hex_digits(s: Seq<u8>) -> bool {
    forall|i: int| 0 <= i < s.len() ==> spec_is_hex_digit(#[trigger] s[i])
}

/// The byte with high nibble `h` and low nibble `l`.
pub open spec fn spec_hex_byte(h: u8, l: u8) -> int
    recommends
        spec_is_hex_digit(h),
        spec_is_hex_digit(l),
{
    spec_hex_val(h) * 16 + spec_hex_val(l)
}

/// What [`parse_hex`] returns on the digit run `s` (the text after `#`):
/// the four channel bytes, or `None` where the length is not 3, 4, 6 or 8
/// or a byte is not a hex digit. Three- and four-digit forms duplicate each
/// nibble; a missing alpha is fully opaque.
pub open spec fn spec_parse_hex(s: Seq<u8>) -> Option<(int, int, int, int)> {
    if !spec_all_hex_digits(s) {
        None
    } else if s.len() == 3 {
        Some((spec_hex_byte(s[0], s[0]), spec_hex_byte(s[1], s[1]), spec_hex_byte(s[2], s[2]), 255))
    } else if s.len() == 4 {
        Some(
            (
                spec_hex_byte(s[0], s[0]),
                spec_hex_byte(s[1], s[1]),
                spec_hex_byte(s[2], s[2]),
                spec_hex_byte(s[3], s[3]),
            ),
        )
    } else if s.len() == 6 {
        Some((spec_hex_byte(s[0], s[1]), spec_hex_byte(s[2], s[3]), spec_hex_byte(s[4], s[5]), 255))
    } else if s.len() == 8 {
        Some(
            (
                spec_hex_byte(s[0], s[1]),
                spec_hex_byte(s[2], s[3]),
                spec_hex_byte(s[4], s[5]),
                spec_hex_byte(s[6], s[7]),
            ),
        )
    } else {
        None
    }
}

/// The value of the hex digit `b`.
fn hex_val(b: u8) -> (r: u8)
    requires
        spec_is_hex_digit(b),
    ensures
        r as int == spec_hex_val(b),
        r < 16,
{
    if b >= 97 {
        b - 87
    } else {
        b - 48
    }
}

/// The channel for the byte with nibbles `h` and `l`.
fn hex_byte_channel(h: u8, l: u8) -> (r: i64)
    requires
        spec_is_hex_digit(h),
        spec_is_hex_digit(l),
    ensures
        r == spec_hex_byte(h, l) * BYTE_UNIT,
        0 <= r <= 255 * BYTE_UNIT,
{
    let v: i64 = (hex_val(h) as i64) * 16 + (hex_val(l) as i64);
    v * BYTE_UNIT
}

/// Whether every byte of `s[from..]` is a lowercase ASCII hex digit.
fn all_hex_digits_from(s: &[u8], from: usize) -> (r: bool)
    requires
        from <= s@.len(),
    ensures
        r == (forall|i: int| from <= i < s@.len() ==> spec_is_hex_digit(#[trigger] s@[i])),
    decreases s@.len() - from,
{
    if from >= s.len() {
        true
    } else {
        let d = s[from];
        let dok = (d >= 48 && d <= 57) || (d >= 97 && d <= 102);
        if !dok {
            false
        } else {
            all_hex_digits_from(s, from + 1)
        }
    }
}

/// Parses a hex digit run (the text after `#`) into a colour.
pub fn parse_hex(s: &[u8]) -> (r: Option<Rgba>)
    ensures
        match r {
            Some(c) => {
                &&& spec_parse_hex(s@) matches Some(bytes)
                &&& c.r == bytes.0 * BYTE_UNIT
                &&& c.g == bytes.1 * BYTE_UNIT
                &&& c.b == bytes.2 * BYTE_UNIT
                &&& c.a == bytes.3 * BYTE_UNIT
                &&& c.wf()
            },
            None => spec_parse_hex(s@) is None,
        },
{
    if !all_hex_digits_from(s, 0) {
        return None;
    }
    let n = s.len();
    if n == 3 {
        Some(
            Rgba {
                r: hex_byte_channel(s[0], s[0]),
                g: hex_byte_channel(s[1], s[1]),
                b: hex_byte_channel(s[2], s[2]),
                a: 255 * BYTE_UNIT,
            },
        )
    } else if n == 4 {
        Some(
            Rgba {
                r: hex_byte_channel(s[0], s[0]),
                g: hex_byte_channel(s[1], s[1]),
                b: hex_byte_channel(s[2], s[2]),
                a: hex_byte_channel(s[3], s[3]),
            },
        )
    } else if n == 6 {
        Some(
            Rgba {
                r: hex_byte_channel(s[0], s[1]),
                g: hex_byte_channel(s[2], s[3]),
                b: hex_byte_channel(s[4], s[5]),
                a: 255 * BYTE_UNIT,
            },
        )
    } else if n == 8 {
        Some(
            Rgba {
                r: hex_byte_channel(s[0], s[1]),
                g: hex_byte_channel(s[2], s[3]),
                b: hex_byte_channel(s[4], s[5]),
                a: hex_byte_channel(s[6], s[7]),
            },
        )
    } else {
        None
    }
}

/// Hex round trip: a six-digit hex token decodes to channels whose nearest
/// bytes are exactly the bytes the token spells, so re-encoding the parsed
/// colour reproduces the token's byte values.
pub proof fn lemma_hex_six_round_trip(s: Seq<u8>)
    requires
        s.len() == 6,
        spec_all_hex_digits(s),
    ensures
        ({
            let bytes = spec_parse_hex(s)->Some_0;
            &&& spec_parse_hex(s) is Some
            &&& Rgba::spec_byte_of_channel(bytes.0 * BYTE_UNIT) == spec_hex_byte(s[0], s[1])
            &&& Rgba::spec_byte_of_channel(bytes.1 * BYTE_UNIT) == spec_hex_byte(s[2], s[3])
            &&& Rgba::spec_byte_of_channel(bytes.2 * BYTE_UNIT) == spec_hex_byte(s[4], s[5])
            &&& Rgba::spec_byte_of_channel(bytes.3 * BYTE_UNIT) == 255
        }),
{
}

/// The nibble-duplication law: a three-digit hex token parses to exactly
/// what the six-digit token with each digit doubled parses to, and a
/// four-digit token to what its eight-digit doubling parses to.
pub proof fn lemma_hex_nibble_duplication(s: Seq<u8>)
    requires
        s.len() == 3 || s.len() == 4,
        spec_all_hex_digits(s),
    ensures
        s.len() == 3 ==> spec_parse_hex(s) == spec_parse_hex(
            seq![s[0], s[0], s[1], s[1], s[2], s[2]],
        ),
        s.len() == 4 ==> spec_parse_hex(s) == spec_parse_hex(
            seq![s[0], s[0], s[1], s[1], s[2], s[2], s[3], s[3]],
        ),
{
    if s.len() == 3 {
        let d = seq![s[0], s[0], s[1], s[1], s[2], s[2]];
        assert(spec_all_hex_digits(d)) by {
            assert forall|i: int| 0 <= i < d.len() implies spec_is_hex_digit(#[trigger] d[i]) by {
                assert(d[i] == s[i / 2]);
            }
        }
    } else {
        let d = seq![s[0], s[0], s[1], s[1], s[2], s[2], s[3], s[3]];
        assert(spec_all_hex_digits(d)) by {
            assert forall|i: int| 0 <= i < d.len() implies spec_is_hex_digit(#[trigger] d[i]) by {
                assert(d[i] == s[i / 2]);
            }
        }
    }
}

} // verus!
