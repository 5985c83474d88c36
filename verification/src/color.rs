//! Colors as plain byte quadruples. A player's color is its identity on
//! the territory canvas; scoring classifies pixels by exact red-green-blue
//! match, ignoring alpha.

use vstd::prelude::*;

verus! {

/// An 8-bit-per-channel color with alpha.
#[derive(Clone, Copy, PartialEq, Eq, Structural, Debug)]
pub struct Rgba {
    pub r: u8,
    pub g: u8,
    pub b: u8,
    pub a: u8,
}

/// Equality on the three color channels alone, the test scoring uses.
pub open spec fn rgb_eq(a: Rgba, b: Rgba) -> bool {
    a.r == b.r && a.g == b.g && a.b == b.b
}

impl Rgba {
    /// A fully opaque color from its three channels.
    pub fn opaque(r: u8, g: u8, b: u8) -> (c: Rgba)
        ensures
            c == (Rgba { r, g, b, a: 255 }),
    {
        Rgba { r, g, b, a: 255 }
    }
}

/// The canvas background: fully transparent white.
pub open spec fn background_color() -> Rgba {
    Rgba { r: 255, g: 255, b: 255, a: 0 }
}

/// The canvas background as an executable value.
pub fn background() -> (c: Rgba)
    ensures
        c == background_color(),
{
    Rgba { r: 255, g: 255, b: 255, a: 0 }
}

/// Player `i`'s paint color, in slot order: amber, lavender, emerald,
/// red.
pub open spec fn palette_color(i: int) -> Rgba {
    if i == 0 {
        Rgba { r: 0xFB, g: 0xB9, b: 0x54, a: 255 }
    } else if i == 1 {
        Rgba { r: 0xA8, g: 0x84, b: 0xF3, a: 255 }
    } else if i == 2 {
        Rgba { r: 0x1E, g: 0xBC, b: 0x73, a: 255 }
    } else {
        Rgba { r: 0xE8, g: 0x3B, b: 0x3B, a: 255 }
    }
}

/// The four players' paint colors, in slot order. Pairwise distinct and
/// distinct from the background.
pub fn player_palette() -> (v: Vec<Rgba>)
    ensures
        v@.len() == 4,
        forall|i: int| 0 <= i < 4 ==> v@[i] == palette_color(i),
        forall|i: int, j: int| 0 <= i < j < 4 ==> !rgb_eq(v@[i], v@[j]),
        forall|i: int| 0 <= i < 4 ==> !rgb_eq(v@[i], background_color()),
{
    let mut v: Vec<Rgba> = Vec::new();
    v.push(Rgba { r: 0xFB, g: 0xB9, b: 0x54, a: 255 });
    v.push(Rgba { r: 0xA8, g: 0x84, b: 0xF3, a: 255 });
    v.push(Rgba { r: 0x1E, g: 0xBC, b: 0x73, a: 255 });
    v.push(Rgba { r: 0xE8, g: 0x3B, b: 0x3B, a: 255 });
    v
}

} // verus!
