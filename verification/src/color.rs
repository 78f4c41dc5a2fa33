//! Drawing colors and the keyboard color table.

use vstd::prelude::*;

verus! {

/// An RGBA color with 8-bit channels.
#[derive(Clone, Copy, Debug, PartialEq, Eq, Structural)]
pub struct Color {
    pub r: u8,
    pub g: u8,
    pub b: u8,
    pub a: u8,
}

pub open spec fn spec_rgb(r: u8, g: u8, b: u8) -> Color {
    Color { r: r, g: g, b: b, a: 255 }
}

pub open spec fn red() -> Color {
    spec_rgb(255, 0, 0)
}

pub open spec fn green() -> Color {
    spec_rgb(0, 255, 0)
}

pub open spec fn blue() -> Color {
    spec_rgb(0, 0, 255)
}

pub open spec fn yellow() -> Color {
    spec_rgb(255, 255, 0)
}

pub open spec fn orange() -> Color {
    spec_rgb(255, 165, 0)
}

pub open spec fn pink() -> Color {
    spec_rgb(255, 105, 180)
}

pub open spec fn white() -> Color {
    spec_rgb(255, 255, 255)
}

pub open spec fn black() -> Color {
    spec_rgb(0, 0, 0)
}

/// The fixed character-to-color table, independent of case.
pub open spec fn spec_key_color(c: char) -> Option<Color> {
    match c {
        'r' | 'R' => Some(red()),
        'g' | 'G' => Some(green()),
        'b' | 'B' => Some(blue()),
        'y' | 'Y' => Some(yellow()),
        'o' | 'O' => Some(orange()),
        'p' | 'P' => Some(pink()),
        'w' | 'W' => Some(white()),
        'k' | 'K' => Some(black()),
        _ => None,
    }
}

impl Color {
    /// Builds an opaque color from 8-bit RGB channels.
    pub fn rgb(r: u8, g: u8, b: u8) -> (c: Color)
        ensures
            c == spec_rgb(r, g, b),
    {
        Color { r: r, g: g, b: b, a: 255 }
    }

    /// Builds a color from 8-bit RGBA channels.
    pub fn rgba(r: u8, g: u8, b: u8, a: u8) -> (c: Color)
        ensures
            c == (Color { r: r, g: g, b: b, a: a }),
    {
        Color { r: r, g: g, b: b, a: a }
    }

    /// A human-readable name for the colors of the keyboard table, used by
    /// status displays; any other color is reported as "Custom".
    pub fn name(&self) -> (n: &'static str)
        ensures
            n@ == spec_color_name(*self),
    {
        if *self == Color::rgb(255, 0, 0) {
            "Red"
        } else if *self == Color::rgb(0, 255, 0) {
            "Green"
        } else if *self == Color::rgb(0, 0, 255) {
            "Blue"
        } else if *self == Color::rgb(255, 255, 0) {
            "Yellow"
        } else if *self == Color::rgb(255, 165, 0) {
            "Orange"
        } else if *self == Color::rgb(255, 105, 180) {
            "Pink"
        } else if *self == Color::rgb(255, 255, 255) {
            "White"
        } else if *self == Color::rgb(0, 0, 0) {
            "Black"
        } else {
            "Custom"
        }
    }
}

/// The name reported for each color of the keyboard table.
pub open spec fn spec_color_name(c: Color) -> Seq<char> {
    if c == red() {
        "Red"@
    } else if c == green() {
        "Green"@
    } else if c == blue() {
        "Blue"@
    } else if c == yellow() {
        "Yellow"@
    } else if c == orange() {
        "Orange"@
    } else if c == pink() {
        "Pink"@
    } else if c == white() {
        "White"@
    } else if c == black() {
        "Black"@
    } else {
        "Custom"@
    }
}

/// Maps a color-selection key to its color; keys outside the table map to
/// `None`.
pub fn key_to_color(c: char) -> (result: Option<Color>)
    ensures
        result == spec_key_color(c),
{
    match c {
        'r' | 'R' => Some(Color::rgb(255, 0, 0)),
        'g' | 'G' => Some(Color::rgb(0, 255, 0)),
        'b' | 'B' => Some(Color::rgb(0, 0, 255)),
        'y' | 'Y' => Some(Color::rgb(255, 255, 0)),
        'o' | 'O' => Some(Color::rgb(255, 165, 0)),
        'p' | 'P' => Some(Color::rgb(255, 105, 180)),
        'w' | 'W' => Some(Color::rgb(255, 255, 255)),
        'k' | 'K' => Some(Color::rgb(0, 0, 0)),
        _ => None,
    }
}

} // verus!
