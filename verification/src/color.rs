//! The fixed set of colors the game draws with.
//!
//! The host engine works with floating-point linear colors; the game's rules
//! only ever pick from a handful of named CSS colors, so the library models a
//! color as its 8-bit sRGB channels.

use vstd::prelude::*;

verus! {

/// An sRGB color with 8-bit channels.
#[derive(Clone, Copy, PartialEq, Eq, Structural, Debug)]
pub struct Color {
    /// Red channel.
    pub r: u8,
    /// Green channel.
    pub g: u8,
    /// Blue channel.
    pub b: u8,
}

/// Number of colors in the stroke palette.
pub const PALETTE_LEN: usize = 4;

/// The CSS `white` color.
pub open spec fn spec_white() -> Color {
    Color { r: 255, g: 255, b: 255 }
}

/// The CSS `white` color.
#[verifier::when_used_as_spec(spec_white)]
pub fn white() -> (c: Color)
    ensures
        c == spec_white(),
{
    Color { r: 255, g: 255, b: 255 }
}

/// The CSS `black` color.
pub open spec fn spec_black() -> Color {
    Color { r: 0, g: 0, b: 0 }
}

/// The CSS `black` color.
#[verifier::when_used_as_spec(spec_black)]
pub fn black() -> (c: Color)
    ensures
        c == spec_black(),
{
    Color { r: 0, g: 0, b: 0 }
}

/// The CSS `royalblue` color.
pub open spec fn spec_royal_blue() -> Color {
    Color { r: 65, g: 105, b: 225 }
}

/// The CSS `royalblue` color.
#[verifier::when_used_as_spec(spec_royal_blue)]
pub fn royal_blue() -> (c: Color)
    ensures
        c == spec_royal_blue(),
{
    Color { r: 65, g: 105, b: 225 }
}

/// The CSS `mediumseagreen` color.
pub open spec fn spec_medium_sea_green() -> Color {
    Color { r: 60, g: 179, b: 113 }
}

/// The CSS `mediumseagreen` color.
#[verifier::when_used_as_spec(spec_medium_sea_green)]
pub fn medium_sea_green() -> (c: Color)
    ensures
        c == spec_medium_sea_green(),
{
    Color { r: 60, g: 179, b: 113 }
}

/// The CSS `gold` color.
pub open spec fn spec_gold() -> Color {
    Color { r: 255, g: 215, b: 0 }
}

/// The CSS `gold` color.
#[verifier::when_used_as_spec(spec_gold)]
pub fn gold() -> (c: Color)
    ensures
        c == spec_gold(),
{
    Color { r: 255, g: 215, b: 0 }
}

/// The CSS `tomato` color.
pub open spec fn spec_tomato() -> Color {
    Color { r: 255, g: 99, b: 71 }
}

/// The CSS `tomato` color.
#[verifier::when_used_as_spec(spec_tomato)]
pub fn tomato() -> (c: Color)
    ensures
        c == spec_tomato(),
{
    Color { r: 255, g: 99, b: 71 }
}

/// The stroke palette, cycled through by the color-cycling key:
/// royal blue, medium sea green, gold, tomato.
pub open spec fn spec_palette(i: int) -> Color {
    if i == 0 {
        spec_royal_blue()
    } else if i == 1 {
        spec_medium_sea_green()
    } else if i == 2 {
        spec_gold()
    } else {
        spec_tomato()
    }
}

/// Returns the palette color with the given index.
pub fn palette(i: usize) -> (c: Color)
    requires
        i < PALETTE_LEN,
    ensures
        c == spec_palette(i as int),
{
    if i == 0 {
        royal_blue()
    } else if i == 1 {
        medium_sea_green()
    } else if i == 2 {
        gold()
    } else {
        tomato()
    }
}

} // verus!
