//! Colours as three 8-bit channels.

use vstd::prelude::*;

verus! {

/// An opaque colour: red, green and blue, eight bits each.
#[derive(Debug, Clone, Copy, PartialEq, Eq, Structural)]
pub struct Rgb {
    pub r: u8,
    pub g: u8,
    pub b: u8,
}

/// A colour with its opacity: red, green, blue and alpha, eight bits each.
#[derive(Debug, Clone, Copy, PartialEq, Eq, Structural)]
pub struct Rgba {
    pub r: u8,
    pub g: u8,
    pub b: u8,
    pub a: u8,
}

impl Rgba {
    /// Channel `channel` of the colour: 0 red, 1 green, 2 blue, 3 alpha.
    pub open spec fn channel(self, channel: int) -> u8 {
        if channel == 0 {
            self.r
        } else if channel == 1 {
            self.g
        } else if channel == 2 {
            self.b
        } else {
            self.a
        }
    }
}

impl Rgb {
    /// Creates a colour from its three channels. The colour that the method
    /// is called on is left as it is.
    pub fn new(&mut self, r: u8, g: u8, b: u8) -> (rgb: Rgb)
        ensures
            rgb == (Rgb { r, g, b }),
            *final(self) == *old(self),
    {
        Rgb { r, g, b }
    }
}

/// Creates a colour from its three channels.
pub fn new_rgb(r: u8, g: u8, b: u8) -> (rgb: Rgb)
    ensures
        rgb == (Rgb { r, g, b }),
{
    Rgb { r, g, b }
}

} // verus!
