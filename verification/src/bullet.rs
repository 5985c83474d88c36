//! Bullets for the dodge minigame: rectangles with a horizontal velocity
//! and a remaining lifetime, spawned in fixed volleys and expired when
//! their lifetime runs out. A bullet overlapping a live player's box sets
//! that player's dead flag; bullets persist through hits.

use vstd::prelude::*;
use crate::color::Rgba;
use crate::geom::{Rect, Vec2};
use crate::scalar::{sat_wide, tdiv, COORD_LIMIT, SCALE};

verus! {

/// How long a spawned bullet lives, in milliseconds.
pub const BULLET_TTL_MS: i64 = 10_000;

/// One bullet of the dodge minigame.
#[derive(Clone, Copy, PartialEq, Eq, Structural, Debug)]
pub struct Bullet {
    pub rect: Rect,
    pub color: Rgba,
    /// Velocity in milliunits per second.
    pub speed: Vec2,
    /// Remaining lifetime in milliseconds.
    pub time_to_live: i64,
}

impl Bullet {
    /// The bounds every bullet satisfies between frames.
    pub open spec fn wf(self) -> bool {
        &&& self.rect.wf()
        &&& -(COORD_LIMIT as int) <= self.speed.x <= COORD_LIMIT as int
        &&& -(COORD_LIMIT as int) <= self.speed.y <= COORD_LIMIT as int
        &&& -1_000_000_000 <= self.time_to_live <= 1_000_000_000
    }
}

/// One frame of bullet motion: the rectangle moves by the velocity times
/// the frame duration (corners saturated at the world bounds), and the
/// lifetime loses the frame duration.
pub open spec fn moved_bullet(b: Bullet, dt: int) -> Bullet {
    Bullet {
        rect: Rect {
            x: sat_wide(b.rect.x + tdiv(b.speed.x * dt, SCALE as int)) as i64,
            y: sat_wide(b.rect.y + tdiv(b.speed.y * dt, SCALE as int)) as i64,
            ..b.rect
        },
        time_to_live: (b.time_to_live - dt) as i64,
        ..b
    }
}

/// A frame's worth of bullets: every bullet moved, and those whose
/// lifetime ran out dropped, keeping the order of the rest.
pub open spec fn moved_live_bullets(bs: Seq<Bullet>, dt: int) -> Seq<Bullet>
    decreases bs.len(),
{
    if bs.len() == 0 {
        Seq::empty()
    } else {
        moved_live_bullets(bs.drop_last(), dt) + (
            if moved_bullet(bs.last(), dt).time_to_live > 0 {
                seq![moved_bullet(bs.last(), dt)]
            } else {
                Seq::empty()
            }
        )
    }
}

/// The fixed volley the dodge minigame spawns: six bullets just off the
/// left edge at fixed lanes, all flying right at the same speed with the
/// same lifetime.
pub open spec fn volley() -> Seq<Bullet> {
    seq![
        volley_bullet(50_000),
        volley_bullet(200_000),
        volley_bullet(350_000),
        volley_bullet(500_000),
        volley_bullet(650_000),
        volley_bullet(800_000),
    ]
}

/// One bullet of the fixed volley, at lane `y` (milliunits).
pub open spec fn volley_bullet(y: int) -> Bullet {
    Bullet {
        rect: Rect { x: -20_000i64, y: y as i64, width: 15_000i64, height: 30_000i64 },
        color: Rgba { r: 255, g: 109, b: 194, a: 255 },
        speed: Vec2 { x: 250_000, y: 0 },
        time_to_live: BULLET_TTL_MS as i64,
    }
}

/// Builds one volley bullet at the given lane.
pub fn make_volley_bullet(y: i64) -> (b: Bullet)
    requires
        0 <= y <= 1_000_000,
    ensures
        b == volley_bullet(y as int),
        b.wf(),
{
    Bullet {
        rect: Rect { x: -20_000, y, width: 15_000, height: 30_000 },
        color: Rgba { r: 255, g: 109, b: 194, a: 255 },
        speed: Vec2 { x: 250_000, y: 0 },
        time_to_live: BULLET_TTL_MS,
    }
}

} // verus!
