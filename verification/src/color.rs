//! RGB colors as the renderer consumes them, and the defaulting rule for
//! optional colors: where no color is given, black stands in.

use vstd::prelude::*;

verus! {

/// An RGB color with 8-bit channels.
#[derive(Clone, Copy, PartialEq, Eq, Structural, Debug)]
pub struct Rgb {
    pub r: u8,
    pub g: u8,
    pub b: u8,
}

/// The color that stands in for an absent one: black. It is both the
/// default color key of a raw glyph and the default backdrop of a tile.
pub open spec fn black() -> Rgb {
    Rgb { r: 0, g: 0, b: 0 }
}

/// The color an optional argument denotes: the color itself, or black
/// where none was given.
pub open spec fn or_black(c: Option<Rgb>) -> Rgb {
    match c {
        Some(c) => c,
        None => black(),
    }
}

impl Rgb {
    /// Build a color from its three channels.
    pub fn new(r: u8, g: u8, b: u8) -> (c: Rgb)
        ensures
            c == (Rgb { r, g, b }),
    {
        Rgb { r, g, b }
    }

    /// The black color, `rgb(0, 0, 0)`.
    pub fn black() -> (c: Rgb)
        ensures
            c == black(),
    {
        Rgb { r: 0, g: 0, b: 0 }
    }
}

/// Resolve an optional color to the color it denotes.
pub fn unwrap_or_black(c: Option<Rgb>) -> (r: Rgb)
    ensures
        r == or_black(c),
{
    match c {
        Some(c) => c,
        None => Rgb::black(),
    }
}

} // verus!
