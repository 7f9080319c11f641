//! The RGBA colour value and its fixed-point channel representation.
//!
//! A channel holds an exact number of `CHANNEL_SCALE`-ths of full intensity:
//! `CHANNEL_SCALE` is `255 * 10^7`, so a hex byte `n` maps to the exact
//! channel `n * 10^7`, a percentage `p` (with up to five decimal places) to
//! the exact channel `p * 255 * 10^5`, and a byte-scale number `n` to the
//! exact channel `n * 10^5 * 100 / 10^5`. Channels are clamped to
//! `[0, CHANNEL_SCALE]` at construction.

use vstd::prelude::*;

verus! {

/// Fixed-point units per unit of colour intensity: `255 * 10^7`.
pub const CHANNEL_SCALE: i64 = 2_550_000_000;

/// Fixed-point units per hex byte unit: `CHANNEL_SCALE / 255`.
pub const BYTE_UNIT: i64 = 10_000_000;

/// An RGBA colour. Each channel lies in `[0, CHANNEL_SCALE]`, where
/// `CHANNEL_SCALE` is full intensity; `a` is the alpha channel, with
/// `CHANNEL_SCALE` fully opaque.
#[derive(Debug, Clone, Copy, PartialEq, Eq, Structural)]
pub struct Rgba {
    pub r: i64,
    pub g: i64,
    pub b: i64,
    pub a: i64,
}

/// A solid colour, as the original model names it.
#[derive(Debug, Clone, Copy, PartialEq, Eq, Structural)]
pub struct Solid {
    pub color: Rgba,
}

impl Rgba {
    /// Every channel lies in `[0, CHANNEL_SCALE]`.
    pub open spec fn wf(&self) -> bool {
        &&& 0 <= self.r <= CHANNEL_SCALE
        &&& 0 <= self.g <= CHANNEL_SCALE
        &&& 0 <= self.b <= CHANNEL_SCALE
        &&& 0 <= self.a <= CHANNEL_SCALE
    }

    /// The channel value of the byte `v`: `v * BYTE_UNIT`.
    pub open spec fn spec_channel_of_byte(v: u8) -> int {
        v * BYTE_UNIT
    }

    /// The colour with the four given byte channels, each mapped to the
    /// exact fixed-point channel `v * BYTE_UNIT`.
    pub fn from_rgba8(r: u8, g: u8, b: u8, a: u8) -> (c: Rgba)
        ensures
            c.r == Rgba::spec_channel_of_byte(r),
            c.g == Rgba::spec_channel_of_byte(g),
            c.b == Rgba::spec_channel_of_byte(b),
            c.a == Rgba::spec_channel_of_byte(a),
            c.wf(),
    {
        Rgba {
            r: (r as i64) * BYTE_UNIT,
            g: (g as i64) * BYTE_UNIT,
            b: (b as i64) * BYTE_UNIT,
            a: (a as i64) * BYTE_UNIT,
        }
    }

    /// The byte nearest to the channel `v`: `round(v / BYTE_UNIT)`, halves
    /// rounded up.
    pub open spec fn spec_byte_of_channel(v: int) -> u8
        recommends
            0 <= v <= CHANNEL_SCALE,
    {
        (((v + BYTE_UNIT / 2) / (BYTE_UNIT as int)) as u8)
    }

    /// The four channels as bytes, each the nearest byte to the channel.
    /// A colour built by [`Rgba::from_rgba8`] gives back exactly the bytes
    /// it was built from.
    pub fn to_rgba8(&self) -> (t: (u8, u8, u8, u8))
        requires
            self.wf(),
        ensures
            t.0 == Rgba::spec_byte_of_channel(self.r as int),
            t.1 == Rgba::spec_byte_of_channel(self.g as int),
            t.2 == Rgba::spec_byte_of_channel(self.b as int),
            t.3 == Rgba::spec_byte_of_channel(self.a as int),
    {
        (
            ((self.r + BYTE_UNIT / 2) / BYTE_UNIT) as u8,
            ((self.g + BYTE_UNIT / 2) / BYTE_UNIT) as u8,
            ((self.b + BYTE_UNIT / 2) / BYTE_UNIT) as u8,
            ((self.a + BYTE_UNIT / 2) / BYTE_UNIT) as u8,
        )
    }

    /// Opaque black: the default colour.
    pub fn default_color() -> (c: Rgba)
        ensures
            c == (Rgba { r: 0, g: 0, b: 0, a: CHANNEL_SCALE }),
            c.wf(),
    {
        Rgba { r: 0, g: 0, b: 0, a: CHANNEL_SCALE }
    }

    /// Encoding then decoding a byte channel is the identity: for every byte
    /// `v`, the byte nearest to the channel of `v` is `v` again.
    pub proof fn lemma_byte_channel_round_trip(v: u8)
        ensures
            Rgba::spec_byte_of_channel(Rgba::spec_channel_of_byte(v)) == v,
    {
    }
}

/// The value `v` clamped to `[0, CHANNEL_SCALE]`.
pub open spec fn spec_clamp_channel(v: int) -> int {
    if v < 0 {
        0
    } else if v > CHANNEL_SCALE {
        CHANNEL_SCALE as int
    } else {
        v
    }
}

/// Clamps a raw channel value into `[0, CHANNEL_SCALE]`.
pub fn clamp_channel(v: i64) -> (r: i64)
    ensures
        r as int == spec_clamp_channel(v as int),
        0 <= r <= CHANNEL_SCALE,
{
    if v < 0 {
        0
    } else if v > CHANNEL_SCALE {
        CHANNEL_SCALE
    } else {
        v
    }
}

} // verus!
