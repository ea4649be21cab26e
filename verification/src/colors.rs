//! The bot's palette.
use vstd::prelude::*;

verus! {

/// The colours the bot paints its cards with.
#[derive(Clone, Copy, Debug, PartialEq, Eq, Structural)]
pub enum Colors {
    White,
    Gray,
    Green,
    Orange,
    Red,
    Fewwis,
    Custom(u8, u8, u8),
}

impl Colors {
    /// The red, green and blue components of each colour.
    pub open spec fn components(self) -> (u8, u8, u8) {
        match self {
            Colors::White => (255, 255, 255),
            Colors::Gray => (175, 175, 175),
            Colors::Green => (178, 247, 117),
            Colors::Orange => (247, 194, 131),
            Colors::Red => (247, 131, 131),
            Colors::Fewwis => (231, 127, 34),
            Colors::Custom(r, g, b) => (r, g, b),
        }
    }

    /// The packed 24-bit value `0xRRGGBB` of a colour, as Discord stores it.
    pub open spec fn packed(self) -> int {
        self.components().0 * 65536 + self.components().1 * 256 + self.components().2
    }

    /// The red, green and blue components.
    pub fn rgb(&self) -> (c: (u8, u8, u8))
        ensures
            c == self.components(),
    {
        match self {
            Colors::White => (255, 255, 255),
            Colors::Gray => (175, 175, 175),
            Colors::Green => (178, 247, 117),
            Colors::Orange => (247, 194, 131),
            Colors::Red => (247, 131, 131),
            Colors::Fewwis => (231, 127, 34),
            Colors::Custom(r, g, b) => (*r, *g, *b),
        }
    }

    /// The packed value `0xRRGGBB` of the colour: red in the high byte, blue in
    /// the low byte.
    pub fn value(&self) -> (v: u32)
        ensures
            v == self.packed(),
            v < 0x1000000,
    {
        let (r, g, b) = self.rgb();
        (r as u32) * 65536 + (g as u32) * 256 + (b as u32)
    }
}

} // verus!
