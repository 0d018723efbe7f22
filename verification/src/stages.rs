//! The rules of the stage catalog that are decided on whole numbers.

use vstd::prelude::*;

verus! {

/// The seven hue bands that selective saturation tells apart.
#[derive(Clone, Copy, Debug, PartialEq, Eq, Structural)]
pub enum HueBand {
    Red,
    Orange,
    Yellow,
    Green,
    Cyan,
    Blue,
    Magenta,
}

/// The band of a hue angle given in whole degrees.
///
/// Red, orange, yellow, green, cyan and blue each end at a fixed angle, the
/// end included. Magenta takes the rest of the circle, and with it every angle
/// that lies outside the circle.
pub open spec fn band_of(degrees: int) -> HueBand {
    if 0 <= degrees <= 30 {
        HueBand::Red
    } else if 31 <= degrees <= 60 {
        HueBand::Orange
    } else if 61 <= degrees <= 120 {
        HueBand::Yellow
    } else if 121 <= degrees <= 180 {
        HueBand::Green
    } else if 181 <= degrees <= 240 {
        HueBand::Cyan
    } else if 241 <= degrees <= 300 {
        HueBand::Blue
    } else {
        HueBand::Magenta
    }
}

/// Picks the hue band for an angle in whole degrees.
pub fn hue_band(degrees: i32) -> (band: HueBand)
    ensures
        band == band_of(degrees as int),
{
    if degrees < 0 {
        HueBand::Magenta
    } else if degrees <= 30 {
        HueBand::Red
    } else if degrees <= 60 {
        HueBand::Orange
    } else if degrees <= 120 {
        HueBand::Yellow
    } else if degrees <= 180 {
        HueBand::Green
    } else if degrees <= 240 {
        HueBand::Cyan
    } else if degrees <= 300 {
        HueBand::Blue
    } else {
        HueBand::Magenta
    }
}

} // verus!
