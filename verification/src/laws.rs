//! The laws the simulation core obeys, each proved once and for all
//! inputs: collision response leaves untouched boxes alone and corrects
//! exactly one axis, a released jump never exceeds its bounds, and
//! two-player scoring counts each color exactly.

use vstd::prelude::*;
use crate::canvas::{class_count, color_count};
use crate::collision::{resolved_all, resolved_once};
use crate::color::{rgb_eq, Rgba};
use crate::geom::{overlap_rect, rects_overlap, Rect};
use crate::player::{decayed_jump_velocity, lemma_decay_bounds, release_clamped, Player};

verus! {

/// A player whose box overlaps no obstacle and no other box comes out of
/// collision resolution exactly as it went in: position, velocity and
/// every other field unchanged.
pub proof fn law_outside_boxes_left_alone(
    p: Player,
    snap: Rect,
    others: Seq<Rect>,
    allow_ground: bool,
)
    requires
        forall|i: int| 0 <= i < others.len() ==> !rects_overlap(snap, #[trigger] others[i]),
    ensures
        resolved_all(p, snap, others, allow_ground) == p,
    decreases others.len(),
{
    if others.len() > 0 {
        assert(forall|i: int|
            0 <= i < others.drop_last().len() ==> (#[trigger] others.drop_last()[i]) == others[i]);
        law_outside_boxes_left_alone(p, snap, others.drop_last(), allow_ground);
        assert(others.last() == others[others.len() - 1]);
    }
}

/// Resolving one overlap corrects exactly one axis — the one with the
/// smaller penetration — and zeroes that axis's velocity; the other
/// axis's position and velocity are left untouched.
pub proof fn law_single_axis_correction(p: Player, snap: Rect, other: Rect, allow_ground: bool)
    requires
        rects_overlap(snap, other),
    ensures
        ({
            let c = overlap_rect(snap, other);
            let r = resolved_once(p, snap, other, allow_ground);
            if c.width < c.height {
                r.position.y == p.position.y && r.velocity.y == p.velocity.y && r.velocity.x == 0
                    && r.is_on_ground == p.is_on_ground
            } else {
                r.position.x == p.position.x && r.velocity.x == p.velocity.x && r.velocity.y == 0
            }
        }),
{
}

/// Releasing the jump button while rising, before the hold limit runs
/// out, leaves an upward speed that never exceeds the decayed boost at
/// the moment of release, never exceeds the jump force, and is either at
/// most the minimum jump velocity or exactly that decayed boost —
/// whichever is the smaller cut.
pub proof fn law_jump_release_bounded(jump_force: int, t: int, jt: int, min_jump_velocity: int)
    requires
        0 <= jump_force,
        0 < t,
        0 <= jt < t,
        0 <= min_jump_velocity,
    ensures
        ({
            let boost = decayed_jump_velocity(jump_force, t, jt);
            let released = -release_clamped(-boost, min_jump_velocity);
            &&& 0 <= released <= boost
            &&& released <= min_jump_velocity || released == boost
            &&& released <= jump_force
        }),
{
    lemma_decay_bounds(jump_force, t, jt);
}

/// With pairwise-distinct paint colors, scoring counts exactly, whatever
/// the configured player count: each of the four classified counts is
/// precisely the number of pixels carrying that player's color, so each
/// territory fraction is that count over the counts' sum.
pub proof fn law_distinct_color_scores_exact(
    pixels: Seq<Rgba>,
    c1: Rgba,
    c2: Rgba,
    c3: Rgba,
    c4: Rgba,
    upto: int,
)
    requires
        upto <= pixels.len(),
        !rgb_eq(c2, c1),
        !rgb_eq(c3, c1),
        !rgb_eq(c3, c2),
        !rgb_eq(c4, c1),
        !rgb_eq(c4, c2),
        !rgb_eq(c4, c3),
    ensures
        class_count(pixels, c1, c2, c3, c4, 0, upto) == color_count(pixels, c1, upto),
        class_count(pixels, c1, c2, c3, c4, 1, upto) == color_count(pixels, c2, upto),
        class_count(pixels, c1, c2, c3, c4, 2, upto) == color_count(pixels, c3, upto),
        class_count(pixels, c1, c2, c3, c4, 3, upto) == color_count(pixels, c4, upto),
    decreases upto,
{
    if upto > 0 {
        law_distinct_color_scores_exact(pixels, c1, c2, c3, c4, upto - 1);
    }
}

} // verus!
