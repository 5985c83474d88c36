//! The fixed level: screen bounds, the hardcoded obstacle layout, and the
//! per-slot spawn positions.

use vstd::prelude::*;
use crate::color::Rgba;
use crate::geom::{Rect, Vec2};
use crate::scalar::SCALE;

verus! {

/// Screen extent in world units (and in canvas pixels).
pub const SCREEN_WIDTH: i64 = 1200;

/// Screen extent in world units (and in canvas pixels).
pub const SCREEN_HEIGHT: i64 = 650;

/// One immovable axis-aligned piece of level geometry.
#[derive(Clone, Copy, PartialEq, Eq, Structural, Debug)]
pub struct EnvItem {
    pub rect: Rect,
    pub color: Rgba,
}

/// Where a player's round starts: `(100 + 100 * number, 100)` world units,
/// here in milliunits.
pub open spec fn spawn_position_spec(number: int) -> Vec2 {
    Vec2 { x: (100 * SCALE as int + 100 * SCALE as int * number) as i64, y: (100 * SCALE as int) as i64 }
}

/// The executable form of [`spawn_position_spec`].
pub fn spawn_position(number: u32) -> (v: Vec2)
    requires
        number < 4,
    ensures
        v == spawn_position_spec(number as int),
{
    Vec2 { x: 100 * SCALE + 100 * SCALE * (number as i64), y: 100 * SCALE }
}

/// The level's obstacle rectangles, in milliunits, in the order collision
/// resolution visits them.
pub open spec fn level_layout() -> Seq<Rect> {
    seq![
        Rect { x: 0, y: 0, width: 1_200_000, height: 30_000 },
        Rect { x: 1_185_000, y: 50_000, width: 15_000, height: 120_000 },
        Rect { x: 1_185_000, y: 240_000, width: 15_000, height: 120_000 },
        Rect { x: 1_185_000, y: 425_000, width: 15_000, height: 90_000 },
        Rect { x: 0, y: 45_000, width: 15_000, height: 45_000 },
        Rect { x: 0, y: 160_000, width: 15_000, height: 30_000 },
        Rect { x: 0, y: 260_000, width: 15_000, height: 153_000 },
        Rect { x: 0, y: 480_000, width: 15_000, height: 95_000 },
        Rect { x: 1_010_000, y: 185_000, width: 182_000, height: 30_000 },
        Rect { x: 9_000, y: 119_000, width: 117_000, height: 30_000 },
        Rect { x: 9_000, y: 209_000, width: 217_000, height: 30_000 },
        Rect { x: 725_000, y: 210_000, width: 45_000, height: 60_000 },
        Rect { x: 590_000, y: 210_000, width: 40_000, height: 60_000 },
        Rect { x: 450_000, y: 260_000, width: 460_000, height: 30_000 },
        Rect { x: 130_000, y: 320_000, width: 220_000, height: 30_000 },
        Rect { x: 975_000, y: 330_000, width: 40_000, height: 60_000 },
        Rect { x: 907_000, y: 370_000, width: 285_000, height: 30_000 },
        Rect { x: 9_000, y: 439_000, width: 493_000, height: 30_000 },
        Rect { x: 655_000, y: 485_000, width: 395_000, height: 30_000 },
        Rect { x: 1_150_000, y: 535_000, width: 35_000, height: 60_000 },
        Rect { x: 345_000, y: 535_000, width: 50_000, height: 60_000 },
        Rect { x: 10_000, y: 590_000, width: 1_180_000, height: 60_000 },
    ]
}

/// The half-transparent debug color of the platforms.
pub open spec fn platform_color() -> Rgba {
    Rgba { r: 230, g: 41, b: 55, a: 128 }
}

/// The half-transparent debug color of the floor.
pub open spec fn floor_color() -> Rgba {
    Rgba { r: 0, g: 121, b: 241, a: 128 }
}

/// The level's obstacles: the layout's rectangles, the floor (the last
/// piece) in its color and every other piece in the platform color.
pub open spec fn level_items() -> Seq<EnvItem> {
    Seq::new(
        22,
        |i: int|
            EnvItem {
                rect: level_layout()[i],
                color: if i == 21 {
                    floor_color()
                } else {
                    platform_color()
                },
            },
    )
}

/// Builds the level's obstacles: every piece carries a half-transparent
/// debug color, red for platforms and blue for the floor.
pub fn level_obstacles() -> (v: Vec<EnvItem>)
    ensures
        v@ == level_items(),
        v@.map_values(|e: EnvItem| e.rect) == level_layout(),
        forall|i: int| 0 <= i < v@.len() ==> (#[trigger] v@[i]).rect.wf(),
        v@.len() == 22,
{
    let platform = Rgba { r: 230, g: 41, b: 55, a: 128 };
    let floor = Rgba { r: 0, g: 121, b: 241, a: 128 };
    let mut v: Vec<EnvItem> = Vec::new();
    v.push(EnvItem { rect: Rect { x: 0, y: 0, width: 1_200_000, height: 30_000 }, color: platform });
    v.push(EnvItem { rect: Rect { x: 1_185_000, y: 50_000, width: 15_000, height: 120_000 }, color: platform });
    v.push(EnvItem { rect: Rect { x: 1_185_000, y: 240_000, width: 15_000, height: 120_000 }, color: platform });
    v.push(EnvItem { rect: Rect { x: 1_185_000, y: 425_000, width: 15_000, height: 90_000 }, color: platform });
    v.push(EnvItem { rect: Rect { x: 0, y: 45_000, width: 15_000, height: 45_000 }, color: platform });
    v.push(EnvItem { rect: Rect { x: 0, y: 160_000, width: 15_000, height: 30_000 }, color: platform });
    v.push(EnvItem { rect: Rect { x: 0, y: 260_000, width: 15_000, height: 153_000 }, color: platform });
    v.push(EnvItem { rect: Rect { x: 0, y: 480_000, width: 15_000, height: 95_000 }, color: platform });
    v.push(EnvItem { rect: Rect { x: 1_010_000, y: 185_000, width: 182_000, height: 30_000 }, color: platform });
    v.push(EnvItem { rect: Rect { x: 9_000, y: 119_000, width: 117_000, height: 30_000 }, color: platform });
    v.push(EnvItem { rect: Rect { x: 9_000, y: 209_000, width: 217_000, height: 30_000 }, color: platform });
    v.push(EnvItem { rect: Rect { x: 725_000, y: 210_000, width: 45_000, height: 60_000 }, color: platform });
    v.push(EnvItem { rect: Rect { x: 590_000, y: 210_000, width: 40_000, height: 60_000 }, color: platform });
    v.push(EnvItem { rect: Rect { x: 450_000, y: 260_000, width: 460_000, height: 30_000 }, color: platform });
    v.push(EnvItem { rect: Rect { x: 130_000, y: 320_000, width: 220_000, height: 30_000 }, color: platform });
    v.push(EnvItem { rect: Rect { x: 975_000, y: 330_000, width: 40_000, height: 60_000 }, color: platform });
    v.push(EnvItem { rect: Rect { x: 907_000, y: 370_000, width: 285_000, height: 30_000 }, color: platform });
    v.push(EnvItem { rect: Rect { x: 9_000, y: 439_000, width: 493_000, height: 30_000 }, color: platform });
    v.push(EnvItem { rect: Rect { x: 655_000, y: 485_000, width: 395_000, height: 30_000 }, color: platform });
    v.push(EnvItem { rect: Rect { x: 1_150_000, y: 535_000, width: 35_000, height: 60_000 }, color: platform });
    v.push(EnvItem { rect: Rect { x: 345_000, y: 535_000, width: 50_000, height: 60_000 }, color: platform });
    v.push(EnvItem { rect: Rect { x: 10_000, y: 590_000, width: 1_180_000, height: 60_000 }, color: floor });
    proof {
        assert(v@ =~= level_items());
        assert(v@.map_values(|e: EnvItem| e.rect) =~= level_layout());
    }
    v
}

} // verus!
