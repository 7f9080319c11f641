//! The error taxonomy of the colour mini-language. Every failure is a value
//! returned to the caller; each variant carries the offending text where
//! there is one.

use vstd::prelude::*;
use vstd::string::StringExecFns;

verus! {

/// An error from parsing a colour expression.
#[derive(Debug, Clone)]
pub enum WinColorError {
    /// The direction string matches neither a keyword phrase nor an angle.
    InvalidGradientCoordinates(String),
    /// The platform accent colour was not available.
    InvalidAccent,
    /// A hex token has the wrong length or a non-hex digit.
    InvalidHex(String),
    /// An `rgb()` / `rgba()` call has the wrong component count, mixes
    /// percentage and byte components, or holds an unparsable number.
    InvalidRgb(String),
    /// A `darken()` (`true`) or `lighten()` (`false`) call is malformed or
    /// its inner colour does not parse.
    InvalidDarkenOrLighten(String, bool),
    /// A gradient expression yielded no usable colour stop.
    NoValidColors,
    /// The token shape is not recognized at all.
    InvalidUnknown,
}

impl WinColorError {
    /// A human-readable description of the error.
    pub fn message(&self) -> (r: String)
        ensures
            r@ == self.spec_message(),
    {
        match self {
            WinColorError::InvalidHex(hex) => "invalid hex format: ".to_owned().concat(
                hex.as_str(),
            ),
            WinColorError::InvalidRgb(rgb) => "invalid rgb format: ".to_owned().concat(
                rgb.as_str(),
            ),
            WinColorError::InvalidUnknown => "invalid unknown format".to_owned(),
            WinColorError::InvalidAccent => "invalid accent color: accent color not found"
                .to_owned(),
            WinColorError::InvalidGradientCoordinates(coordinates) => {
                "invalid gradient coordinates: ".to_owned().concat(coordinates.as_str())
            },
            WinColorError::InvalidDarkenOrLighten(s, darken_or_lighten) => {
                if *darken_or_lighten {
                    "invalid darken format: ".to_owned().concat(s.as_str())
                } else {
                    "invalid lighten format: ".to_owned().concat(s.as_str())
                }
            },
            WinColorError::NoValidColors => "no valid colors found".to_owned(),
        }
    }

    /// What [`WinColorError::message`] returns, as a character sequence.
    pub open spec fn spec_message(&self) -> Seq<char> {
        match self {
            WinColorError::InvalidHex(hex) => "invalid hex format: "@ + hex@,
            WinColorError::InvalidRgb(rgb) => "invalid rgb format: "@ + rgb@,
            WinColorError::InvalidUnknown => "invalid unknown format"@,
            WinColorError::InvalidAccent => "invalid accent color: accent color not found"@,
            WinColorError::InvalidGradientCoordinates(c) => "invalid gradient coordinates: "@ + c@,
            WinColorError::InvalidDarkenOrLighten(s, darken_or_lighten) => {
                if *darken_or_lighten {
                    "invalid darken format: "@ + s@
                } else {
                    "invalid lighten format: "@ + s@
                }
            },
            WinColorError::NoValidColors => "no valid colors found"@,
        }
    }
}

} // verus!
