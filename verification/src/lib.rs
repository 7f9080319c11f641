//! A small colour mini-language for window borders: hex codes, `rgb()` /
//! `rgba()` calls, CSS named colours, a platform `accent` token,
//! `darken()` / `lighten()` modifiers and `gradient(...)` directives are
//! parsed into a normalized colour model: either a single RGBA value or an
//! ordered list of gradient stops plus a direction in unit-square
//! coordinates.
//!
//! Colour channels are exact fixed-point integers: a channel holds
//! `CHANNEL_SCALE` units per unit of intensity, so `#ff0000`, `rgb(255, 0, 0)`
//! and `rgb(100%, 0%, 0%)` all produce exactly the same value. Querying the
//! operating system for the live accent colour and turning a colour into a
//! renderer brush are outside this crate: callers pass the accent triple in
//! and read the normalized model out.

pub mod direction;
pub mod error;
pub mod fixed;
pub mod gradient;
pub mod hex;
pub mod hsl;
pub mod named;
pub mod num;
pub mod parser;
pub mod rgba;
pub mod token;
pub mod trig;
pub mod utils;

pub use direction::GradientCoordinates;
pub use direction::resolve_direction;
pub use error::WinColorError;
pub use rgba::Rgba;
pub use rgba::Solid;
pub use utils::strip_string;
pub use gradient::ColorMapping;
pub use gradient::ColorMappingImpl;
pub use gradient::Gradient;
pub use gradient::GradientDirection;
pub use gradient::GradientStop;
pub use gradient::parse_gradient_direction;
pub use hsl::darken;
pub use hsl::lighten;
pub use parser::parse_color;
pub use parser::parse_color_string;
pub use parser::parse_color_mapping;
pub use parser::parse_color_mapping_with;
pub use token::parse_color_token;

use vstd::prelude::*;

verus! {

/// A normalized colour: either one RGBA value or a linear gradient.
#[derive(Debug, Clone)]
pub enum Color {
    /// A single RGBA value.
    Solid(Solid),
    /// An ordered list of gradient stops plus a direction.
    Gradient(Gradient),
}

/// A colour definition as it appears in configuration: either a colour
/// expression string or a structured gradient mapping.
#[derive(Debug, Clone)]
pub enum GlobalColor {
    /// A colour expression, such as `"#FF5733"` or `"red"`.
    String(String),
    /// A structured mapping with a colour list and a direction.
    Mapping(ColorMapping),
}

impl Default for GlobalColor {
    /// The default global colour is opaque black, `"#000000"`.
    fn default() -> (r: Self)
        ensures
            r is String && r->String_0@ == "#000000"@,
    {
        GlobalColor::String("#000000".to_owned())
    }
}

impl Default for Color {
    /// The default colour is a transparent black solid.
    fn default() -> (r: Self)
        ensures
            r matches Color::Solid(s) && s.color == (Rgba { r: 0, g: 0, b: 0, a: 0 }),
    {
        Color::Solid(Solid { color: Rgba { r: 0, g: 0, b: 0, a: 0 } })
    }
}

/// Turning a global colour definition into a normalized [`Color`].
pub trait GlobalColorImpl {
    /// What [`GlobalColorImpl::to_color`] yields.
    spec fn spec_to_color(&self, is_active: Option<bool>, accent: Option<(u8, u8, u8)>) -> parser::ColorOutcome;

    /// Parses the definition. `is_active` selects the active or the
    /// desaturated variant of the `accent` token; `accent` is the RGB triple
    /// that the platform reported, or `None` where the query failed.
    fn to_color(&self, is_active: Option<bool>, accent: Option<(u8, u8, u8)>) -> (r: Result<
        Color,
        WinColorError,
    >)
        ensures
            parser::spec_color_matches(self.spec_to_color(is_active, accent), r),
    ;
}

} // verus!
