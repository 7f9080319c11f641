//! Gradient model types: directions, stops, and the structured colour
//! mapping that configuration files use.

use vstd::prelude::*;
use vstd::string::StrSliceExecFns;
use vstd::string::StringSliceAdditionalSpecFns;
use crate::direction::GradientCoordinates;
use crate::direction::resolve_direction;
use crate::direction::spec_resolve_direction;
use crate::error::WinColorError;
use crate::rgba::Rgba;

verus! {

/// A gradient direction as configuration states it: a phrase or angle
/// string, or explicit coordinates.
#[derive(Debug, Clone)]
pub enum GradientDirection {
    /// A direction string, such as `"to right"` or `"45deg"`.
    Direction(String),
    /// Explicit start and end coordinates.
    Coordinates(GradientCoordinates),
}

/// One colour stop of a gradient. The position along the gradient line is
/// the exact fraction `pos_num / pos_den` of the way from start to end.
#[derive(Debug, Clone, Copy)]
pub struct GradientStop {
    /// The numerator of the stop's position.
    pub pos_num: usize,
    /// The denominator of the stop's position: one less than the colour
    /// count of its gradient.
    pub pos_den: usize,
    /// The colour at this stop.
    pub color: Rgba,
}

impl GradientStop {
    /// The position is a fraction in `[0, 1]` and the colour is valid.
    pub open spec fn wf(&self) -> bool {
        &&& 1 <= self.pos_den
        &&& self.pos_num <= self.pos_den
        &&& self.color.wf()
    }
}

/// A linear gradient: at least two colour stops in increasing position
/// order, and a direction on the unit square.
#[derive(Debug, Clone)]
pub struct Gradient {
    /// The direction of the gradient.
    pub direction: GradientCoordinates,
    /// The colour stops, in increasing position order.
    pub gradient_stops: Vec<GradientStop>,
}

impl Gradient {
    /// At least two stops, all valid, on a common denominator, in strictly
    /// increasing position order.
    pub open spec fn wf(&self) -> bool {
        &&& self.gradient_stops@.len() >= 2
        &&& forall|k: int|
            0 <= k < self.gradient_stops@.len() ==> (#[trigger] self.gradient_stops@[k]).wf()
        &&& forall|k: int|
            0 <= k < self.gradient_stops@.len() - 1
                ==> (#[trigger] self.gradient_stops@[k]).pos_num < self.gradient_stops@[k
                + 1].pos_num && self.gradient_stops@[k].pos_den == self.gradient_stops@[k
                + 1].pos_den
    }
}

/// A structured gradient definition: colour expressions plus a direction.
#[derive(Debug, Clone)]
pub struct ColorMapping {
    /// The colour expressions of the gradient's stops.
    pub colors: Vec<String>,
    /// The direction of the gradient.
    pub direction: GradientDirection,
}

/// Building a [`ColorMapping`] from borrowed parts.
pub trait ColorMappingImpl: core::marker::Sized {
    /// Builds a mapping from the colour strings and the direction.
    fn new(colors: &[&str], direction: GradientDirection) -> (r: Self);
}

impl ColorMappingImpl for ColorMapping {
    fn new(colors: &[&str], direction: GradientDirection) -> (r: Self) {
        let mut list: Vec<String> = Vec::new();
        let mut i: usize = 0;
        while i < colors.len()
            invariant
                i <= colors@.len(),
                list@.len() == i,
                forall|k: int| 0 <= k < i ==> (#[trigger] list@[k])@ == (colors@[k])@,
            decreases colors@.len() - i,
        {
            let c = colors[i];
            list.push(c.to_owned());
            i = i + 1;
        }
        ColorMapping { colors: list, direction }
    }
}

/// What resolving a [`GradientDirection`] yields: the resolver on a
/// direction string, or the coordinates themselves.
pub open spec fn spec_gradient_direction(d: GradientDirection) -> Option<((int, int), (int, int))> {
    match d {
        GradientDirection::Direction(s) => spec_resolve_direction(
            vstd::utf8::encode_utf8(s@),
        ),
        GradientDirection::Coordinates(c) => Some(
            ((c.start[0] as int, c.start[1] as int), (c.end[0] as int, c.end[1] as int)),
        ),
    }
}

/// Resolves a gradient direction into unit-square coordinates: a string is
/// put through the direction resolver, explicit coordinates pass through;
/// a string that is neither a keyword phrase nor an angle is an
/// invalid-coordinates error carrying it.
pub fn parse_gradient_direction(direction: &GradientDirection) -> (r: Result<
    GradientCoordinates,
    WinColorError,
>)
    ensures
        match r {
            Ok(c) => {
                &&& spec_gradient_direction(*direction) matches Some(pts)
                &&& (c.start[0] as int, c.start[1] as int) == pts.0
                &&& (c.end[0] as int, c.end[1] as int) == pts.1
            },
            Err(e) => {
                &&& spec_gradient_direction(*direction) is None
                &&& direction matches GradientDirection::Direction(s) && (
                e matches WinColorError::InvalidGradientCoordinates(t) && t@ == s@)
            },
        },
{
    match direction {
        GradientDirection::Direction(dir) => resolve_direction(dir.as_str()),
        GradientDirection::Coordinates(coords) => Ok(*coords),
    }
}

} // verus!
