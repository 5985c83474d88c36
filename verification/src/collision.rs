//! Axis-separated collision resolution and paint-point generation.
//!
//! Each frame a player's box is snapshotted once; every obstacle and every
//! other player's box is tested against that snapshot, and each overlap is
//! resolved along the axis of least penetration. Obstacle overlaps also
//! emit a grid of paint marks covering the overlap rectangle.

use vstd::prelude::*;
use vstd::arithmetic::div_mod::{
    lemma_div_is_ordered, lemma_div_multiples_vanish_fancy, lemma_mod_multiples_vanish,
    lemma_small_mod,
};
use vstd::arithmetic::mul::lemma_mul_is_commutative;
use crate::geom::{overlap_rect, rects_overlap, Rect, Vec2};
use crate::level::EnvItem;
use crate::player::Player;
use crate::scalar::{sat, sat_coord};

verus! {

/// Radius of one paint mark, in milliunits; the grid of marks steps by
/// exactly this much, so neighboring marks touch.
pub const PAINT_RADIUS: i64 = 5_000;

/// The same radius in whole pixels, as the canvas draws it.
pub const PAINT_RADIUS_PX: i64 = 5;

/// Division rounding up, for positive divisors.
pub open spec fn ceil_div(a: int, b: int) -> int {
    (a + b - 1) / b
}

/// How many paint columns an overlap rectangle spans.
pub open spec fn grid_cols(c: Rect) -> int {
    ceil_div(c.width as int, PAINT_RADIUS as int)
}

/// How many paint rows an overlap rectangle spans.
pub open spec fn grid_rows(c: Rect) -> int {
    ceil_div(c.height as int, PAINT_RADIUS as int)
}

/// The mark at grid cell `(ix, iy)` of an overlap rectangle: the cell's
/// top-left corner pushed one radius right and down.
pub open spec fn grid_point(c: Rect, ix: int, iy: int) -> Vec2 {
    Vec2 {
        x: (c.x + ix * (PAINT_RADIUS as int) + PAINT_RADIUS as int) as i64,
        y: (c.y + iy * (PAINT_RADIUS as int) + PAINT_RADIUS as int) as i64,
    }
}

/// The single mark a sub-step overlap generates: the overlap's center,
/// pushed one radius right and down.
pub open spec fn centered_point(c: Rect) -> Vec2 {
    Vec2 {
        x: (c.x + c.width / 2 + PAINT_RADIUS as int) as i64,
        y: (c.y + c.height / 2 + PAINT_RADIUS as int) as i64,
    }
}

/// Every paint mark of an overlap rectangle: an overlap smaller than one
/// step on both axes gets a single centered mark, so every touch paints;
/// any larger overlap gets the full grid, column by column,
/// `ceil(w/s) * ceil(h/s)` marks in all.
pub open spec fn paint_points_spec(c: Rect) -> Seq<Vec2> {
    if c.width < PAINT_RADIUS as int && c.height < PAINT_RADIUS as int {
        seq![centered_point(c)]
    } else {
        Seq::new(
            (grid_cols(c) * grid_rows(c)) as nat,
            |k: int| grid_point(c, k / grid_rows(c), k % grid_rows(c)),
        )
    }
}

/// One overlap resolved along the axis of least penetration. The player's
/// box snapshot `snap` decides the push direction by comparing the two
/// rectangles' origins; only the corrected axis's velocity is zeroed, the
/// other axis is left untouched. Pushing up out of an obstacle may ground
/// the player; `allow_ground` is false for player-versus-player response,
/// which never grounds.
pub open spec fn resolved_once(p: Player, snap: Rect, other: Rect, allow_ground: bool) -> Player {
    if !rects_overlap(snap, other) {
        p
    } else {
        let c = overlap_rect(snap, other);
        if c.width < c.height {
            Player {
                position: Vec2 {
                    x: sat(
                        if snap.x < other.x {
                            p.position.x - c.width
                        } else {
                            p.position.x + c.width
                        },
                    ) as i64,
                    y: p.position.y,
                },
                velocity: Vec2 { x: 0, y: p.velocity.y },
                ..p
            }
        } else if snap.y < other.y {
            Player {
                position: Vec2 { x: p.position.x, y: sat(p.position.y - c.height) as i64 },
                velocity: Vec2 { x: p.velocity.x, y: 0 },
                is_on_ground: if allow_ground {
                    true
                } else {
                    p.is_on_ground
                },
                ..p
            }
        } else {
            Player {
                position: Vec2 { x: p.position.x, y: sat(p.position.y + c.height) as i64 },
                velocity: Vec2 { x: p.velocity.x, y: 0 },
                ..p
            }
        }
    }
}

/// A run of overlaps resolved in order, all against the same snapshot:
/// the run short of its last rectangle, then that rectangle.
pub open spec fn resolved_all(p: Player, snap: Rect, others: Seq<Rect>, allow_ground: bool) -> Player
    decreases others.len(),
{
    if others.len() == 0 {
        p
    } else {
        resolved_once(
            resolved_all(p, snap, others.drop_last(), allow_ground),
            snap,
            others.last(),
            allow_ground,
        )
    }
}

/// The obstacles a snapshot overlaps, in order, each paired with the
/// overlap rectangle.
pub open spec fn overlap_records(snap: Rect, items: Seq<Rect>) -> Seq<(Rect, Rect)>
    decreases items.len(),
{
    if items.len() == 0 {
        Seq::empty()
    } else {
        overlap_records(snap, items.drop_last()) + (
            if rects_overlap(snap, items.last()) {
                seq![(items.last(), overlap_rect(snap, items.last()))]
            } else {
                Seq::empty()
            }
        )
    }
}

/// The rectangles of a run of obstacles.
pub open spec fn env_rects(items: Seq<EnvItem>) -> Seq<Rect> {
    items.map_values(|e: EnvItem| e.rect)
}

/// The box snapshots of a run of players.
pub open spec fn player_rects(ps: Seq<Player>) -> Seq<Rect> {
    ps.map_values(|q: Player| q.collision_rect_spec())
}

/// The box snapshots of well-formed players are well-formed rectangles.
pub proof fn lemma_player_rects_wf(ps: Seq<Player>)
    requires
        forall|i: int| 0 <= i < ps.len() ==> (#[trigger] ps[i]).wf(),
    ensures
        forall|k: int| 0 <= k < player_rects(ps).len() ==> (#[trigger] player_rects(ps)[k]).wf(),
{
    assert forall|k: int| 0 <= k < player_rects(ps).len() implies (#[trigger] player_rects(
        ps,
    )[k]).wf() by {
        assert(player_rects(ps)[k] == ps[k].collision_rect_spec());
        assert(ps[k].wf());
    }
}

/// Collision resolution moves a player and rewrites the corrected axis's
/// velocity, and touches nothing else: identity, tuning, round state and
/// the jump state machine all come through unchanged, and the player
/// stays well-formed.
pub proof fn lemma_resolved_all_frame(p: Player, snap: Rect, others: Seq<Rect>, allow_ground: bool)
    requires
        p.wf(),
        forall|i: int| 0 <= i < others.len() ==> (#[trigger] others[i]).wf(),
    ensures
        ({
            let r = resolved_all(p, snap, others, allow_ground);
            &&& r.wf()
            &&& r.rotation == p.rotation
            &&& r.speed == p.speed
            &&& r.color == p.color
            &&& r.controls == p.controls
            &&& r.width == p.width
            &&& r.height == p.height
            &&& r.jump_force == p.jump_force
            &&& r.is_jumping == p.is_jumping
            &&& r.jump_time == p.jump_time
            &&& r.max_jump_time == p.max_jump_time
            &&& r.min_jump_velocity == p.min_jump_velocity
            &&& r.points == p.points
            &&& r.number == p.number
            &&& r.dead == p.dead
            &&& (!allow_ground ==> r.is_on_ground == p.is_on_ground)
        }),
    decreases others.len(),
{
    if others.len() > 0 {
        lemma_resolved_all_frame(p, snap, others.drop_last(), allow_ground);
    }
}

/// A scan that records no overlap overlapped nothing, and the other way
/// round.
pub proof fn lemma_overlap_records_empty(snap: Rect, items: Seq<Rect>)
    ensures
        overlap_records(snap, items).len() == 0 <==> (forall|i: int|
            0 <= i < items.len() ==> !rects_overlap(snap, #[trigger] items[i])),
    decreases items.len(),
{
    if items.len() > 0 {
        lemma_overlap_records_empty(snap, items.drop_last());
        assert(forall|i: int|
            0 <= i < items.drop_last().len() ==> items.drop_last()[i] == items[i]);
        assert(items.last() == items[items.len() - 1]);
    }
}

/// The overlap of two overlapping well-formed rectangles is well-formed.
pub proof fn lemma_overlap_rect_wf(a: Rect, b: Rect)
    requires
        a.wf(),
        b.wf(),
        rects_overlap(a, b),
    ensures
        overlap_rect(a, b).wf(),
        0 < overlap_rect(a, b).width,
        0 < overlap_rect(a, b).height,
{
}

/// Every record an overlap scan of well-formed rectangles produces holds
/// two well-formed rectangles.
pub proof fn lemma_overlap_records_wf(snap: Rect, items: Seq<Rect>)
    requires
        snap.wf(),
        forall|i: int| 0 <= i < items.len() ==> (#[trigger] items[i]).wf(),
    ensures
        forall|k: int|
            0 <= k < overlap_records(snap, items).len() ==> (#[trigger] overlap_records(
                snap,
                items,
            )[k]).0.wf() && overlap_records(snap, items)[k].1.wf(),
    decreases items.len(),
{
    if items.len() > 0 {
        assert(forall|i: int|
            0 <= i < items.drop_last().len() ==> (#[trigger] items.drop_last()[i]) == items[i]);
        lemma_overlap_records_wf(snap, items.drop_last());
        if rects_overlap(snap, items.last()) {
            lemma_overlap_rect_wf(snap, items.last());
        }
        let recs = overlap_records(snap, items);
        let pre = overlap_records(snap, items.drop_last());
        assert forall|k: int| 0 <= k < recs.len() implies (#[trigger] recs[k]).0.wf()
            && recs[k].1.wf() by {
            if k < pre.len() {
                assert(recs[k] == pre[k]);
            } else {
                assert(rects_overlap(snap, items.last()));
                assert(recs[k] == (items.last(), overlap_rect(snap, items.last())));
            }
        }
    }
}

/// A well-formed overlap rectangle spans at least one and at most two
/// hundred thousand paint columns and rows.
pub proof fn lemma_grid_dims(c: Rect)
    requires
        c.wf(),
    ensures
        1 <= grid_cols(c) <= 200_000,
        1 <= grid_rows(c) <= 200_000,
{
    lemma_div_multiples_vanish_fancy(1, 0, PAINT_RADIUS as int);
    lemma_div_is_ordered(PAINT_RADIUS as int, c.width + PAINT_RADIUS - 1, PAINT_RADIUS as int);
    lemma_div_is_ordered(PAINT_RADIUS as int, c.height + PAINT_RADIUS - 1, PAINT_RADIUS as int);
    lemma_div_multiples_vanish_fancy(200_000, 4_999, PAINT_RADIUS as int);
    lemma_div_is_ordered(c.width + PAINT_RADIUS - 1, 1_000_004_999, PAINT_RADIUS as int);
    lemma_div_is_ordered(c.height + PAINT_RADIUS - 1, 1_000_004_999, PAINT_RADIUS as int);
}

/// Every paint mark of a well-formed overlap rectangle stays within three
/// coordinate bounds of the origin, on both axes.
pub proof fn lemma_paint_points_bounded(c: Rect)
    requires
        c.wf(),
    ensures
        forall|k: int|
            0 <= k < paint_points_spec(c).len() ==> {
                let p = #[trigger] paint_points_spec(c)[k];
                -3_000_000_000_000 <= p.x <= 3_000_000_000_000 && -3_000_000_000_000 <= p.y
                    <= 3_000_000_000_000
            },
{
    lemma_grid_dims(c);
    assert forall|k: int| 0 <= k < paint_points_spec(c).len() implies {
        let p = #[trigger] paint_points_spec(c)[k];
        -3_000_000_000_000 <= p.x <= 3_000_000_000_000 && -3_000_000_000_000 <= p.y
            <= 3_000_000_000_000
    } by {
        if c.width < PAINT_RADIUS as int && c.height < PAINT_RADIUS as int {
            assert(paint_points_spec(c)[k] == centered_point(c));
        } else {
        let rows = grid_rows(c);
        let cols = grid_cols(c);
        let ix = k / rows;
        let iy = k % rows;
        assert(k < cols * rows);
        vstd::arithmetic::div_mod::lemma_div_pos_is_pos(k, rows);
        lemma_mul_is_commutative(cols, rows);
        vstd::arithmetic::div_mod::lemma_multiply_divide_lt(k, rows, cols);
        assert(0 <= ix < cols);
        assert(0 <= iy < rows);
        assert(0 <= ix * (PAINT_RADIUS as int) <= 1_000_000_000) by (nonlinear_arith)
            requires
                0 <= ix <= 200_000,
        ;
        assert(0 <= iy * (PAINT_RADIUS as int) <= 1_000_000_000) by (nonlinear_arith)
            requires
                0 <= iy <= 200_000,
        ;
        }
    }
}

/// The paint marks over an overlap rectangle, exactly as
/// [`paint_points_spec`] lists them: a single centered mark for an
/// overlap smaller than one step on both axes, else one mark per grid
/// cell — `ceil(width/step) * ceil(height/step)` marks, and never none:
/// every touch paints.
pub fn gen_paint_points(c: &Rect) -> (v: Vec<Vec2>)
    requires
        c.wf(),
    ensures
        v@ == paint_points_spec(*c),
        v@.len() == grid_cols(*c) * grid_rows(*c),
        v@.len() >= 1,
{
    if c.width < PAINT_RADIUS && c.height < PAINT_RADIUS {
        proof {
            lemma_div_multiples_vanish_fancy(1, c.width - 1, PAINT_RADIUS as int);
            lemma_div_multiples_vanish_fancy(1, c.height - 1, PAINT_RADIUS as int);
            assert(grid_cols(*c) == 1);
            assert(grid_rows(*c) == 1);
        }
        let mut v: Vec<Vec2> = Vec::new();
        v.push(Vec2 { x: c.x + c.width / 2 + PAINT_RADIUS, y: c.y + c.height / 2 + PAINT_RADIUS });
        proof {
            assert(v@ =~= paint_points_spec(*c));
        }
        return v;
    }
    let nx = (c.width + PAINT_RADIUS - 1) / PAINT_RADIUS;
    let ny = (c.height + PAINT_RADIUS - 1) / PAINT_RADIUS;
    proof {
        lemma_grid_dims(*c);
        assert(1 <= nx <= 200_000);
        assert(1 <= ny <= 200_000);
    }
    let mut v: Vec<Vec2> = Vec::new();
    let mut ix: i64 = 0;
    while ix < nx
        invariant
            c.wf(),
            0 <= ix <= nx,
            nx == grid_cols(*c),
            ny == grid_rows(*c),
            1 <= nx <= 200_000,
            1 <= ny <= 200_000,
            v@.len() == ix * ny,
            forall|k: int|
                0 <= k < v@.len() ==> v@[k] == grid_point(*c, k / (ny as int), k % (ny as int)),
        decreases nx - ix,
    {
        let mut iy: i64 = 0;
        while iy < ny
            invariant
                c.wf(),
                0 <= ix < nx,
                0 <= iy <= ny,
                nx == grid_cols(*c),
                ny == grid_rows(*c),
                1 <= nx <= 200_000,
                1 <= ny <= 200_000,
                v@.len() == ix * ny + iy,
                forall|k: int|
                    0 <= k < v@.len() ==> v@[k] == grid_point(*c, k / (ny as int), k % (ny as int)),
            decreases ny - iy,
        {
            proof {
                assert(0 <= ix * ny <= 40_000_000_000) by (nonlinear_arith)
                    requires
                        0 <= ix <= 200_000,
                        1 <= ny <= 200_000,
                ;
                lemma_mul_is_commutative(ix as int, ny as int);
                lemma_div_multiples_vanish_fancy(ix as int, iy as int, ny as int);
                lemma_mod_multiples_vanish(ix as int, iy as int, ny as int);
                lemma_small_mod(iy as nat, ny as nat);
            }
            let px = c.x + ix * PAINT_RADIUS + PAINT_RADIUS;
            let py = c.y + iy * PAINT_RADIUS + PAINT_RADIUS;
            v.push(Vec2 { x: px, y: py });
            iy = iy + 1;
        }
        proof {
            assert((ix + 1) * ny == ix * ny + ny) by (nonlinear_arith);
        }
        ix = ix + 1;
    }
    proof {
        assert(0 <= nx * ny) by (nonlinear_arith)
            requires
                1 <= nx,
                1 <= ny,
        ;
        assert(nx * ny >= 1) by (nonlinear_arith)
            requires
                1 <= nx,
                1 <= ny,
        ;
        assert(v@ =~= paint_points_spec(*c));
    }
    v
}

impl Player {
    /// Collision resolution for one player, one frame: the box snapshot is
    /// taken once, then every obstacle and every listed other player is
    /// tested and resolved in order against that snapshot. Returns one
    /// record per overlapping obstacle — its rectangle and the paint marks
    /// the overlap generates; an empty run of records means no obstacle
    /// was touched, so position and velocity are only moved by what
    /// actually overlapped.
    pub fn handle_collision(&mut self, ops: &Vec<EnvItem>, players: &Vec<Player>) -> (r: Vec<
        (Rect, Vec<Vec2>),
    >)
        requires
            old(self).wf(),
            forall|i: int| 0 <= i < ops@.len() ==> (#[trigger] ops@[i]).rect.wf(),
            forall|i: int| 0 <= i < players@.len() ==> (#[trigger] players@[i]).wf(),
        ensures
            final(self).wf(),
            *final(self) == resolved_all(
                resolved_all(
                    *old(self),
                    old(self).collision_rect_spec(),
                    env_rects(ops@),
                    true,
                ),
                old(self).collision_rect_spec(),
                player_rects(players@),
                false,
            ),
            r@.len() == overlap_records(old(self).collision_rect_spec(), env_rects(ops@)).len(),
            forall|k: int|
                0 <= k < r@.len() ==> {
                    let rec = overlap_records(old(self).collision_rect_spec(), env_rects(ops@))[k];
                    (#[trigger] r@[k]).0 == rec.0 && r@[k].1@ == paint_points_spec(rec.1)
                },
            r@.len() == 0 <==> (forall|i: int|
                0 <= i < ops@.len() ==> !rects_overlap(
                    old(self).collision_rect_spec(),
                    (#[trigger] ops@[i]).rect,
                )),
    {
        let player_rect = self.get_collision_rect();
        let ghost snap = old(self).collision_rect_spec();
        let ghost env_seq = env_rects(ops@);
        let mut collisions: Vec<(Rect, Vec<Vec2>)> = Vec::new();
        let mut i: usize = 0;
        while i < ops.len()
            invariant
                forall|j: int| 0 <= j < ops@.len() ==> (#[trigger] ops@[j]).rect.wf(),
                0 <= i <= ops@.len(),
                env_seq == env_rects(ops@),
                snap.wf(),
                player_rect == snap,
                self.wf(),
                *self == resolved_all(*old(self), snap, env_seq.take(i as int), true),
                collisions@.len() == overlap_records(snap, env_seq.take(i as int)).len(),
                forall|k: int|
                    0 <= k < collisions@.len() ==> {
                        let rec = overlap_records(snap, env_seq.take(i as int))[k];
                        (#[trigger] collisions@[k]).0 == rec.0 && collisions@[k].1@
                            == paint_points_spec(rec.1)
                    },
            decreases ops@.len() - i,
        {
            proof {
                assert(env_seq.take(i as int + 1).drop_last() =~= env_seq.take(i as int));
                assert(env_seq.take(i as int + 1).last() == env_seq[i as int]);
            }
            let op_rect = ops[i].rect;
            if let Some(collision) = player_rect.get_collision_rec(&op_rect) {
                let dx = collision.width;
                let dy = collision.height;
                if dx < dy {
                    if player_rect.x < op_rect.x {
                        self.position.x = sat_coord(self.position.x - dx);
                    } else {
                        self.position.x = sat_coord(self.position.x + dx);
                    }
                    self.velocity.x = 0;
                } else {
                    if player_rect.y < op_rect.y {
                        self.position.y = sat_coord(self.position.y - dy);
                        self.velocity.y = 0;
                        self.is_on_ground = true;
                    } else {
                        self.position.y = sat_coord(self.position.y + dy);
                        self.velocity.y = 0;
                    }
                }
                let points = gen_paint_points(&collision);
                collisions.push((op_rect, points));
            }
            i = i + 1;
        }
        proof {
            assert(env_seq.take(ops@.len() as int) =~= env_seq);
        }
        let ghost mid = *self;
        let ghost others_seq = player_rects(players@);
        let mut j: usize = 0;
        while j < players.len()
            invariant
                forall|k: int| 0 <= k < players@.len() ==> (#[trigger] players@[k]).wf(),
                0 <= j <= players@.len(),
                others_seq == player_rects(players@),
                snap.wf(),
                player_rect == snap,
                self.wf(),
                *self == resolved_all(mid, snap, others_seq.take(j as int), false),
            decreases players@.len() - j,
        {
            proof {
                assert(others_seq.take(j as int + 1).drop_last() =~= others_seq.take(j as int));
                assert(others_seq.take(j as int + 1).last() == others_seq[j as int]);
            }
            let rect = players[j].get_collision_rect();
            if let Some(collision) = rect.get_collision_rec(&player_rect) {
                proof {
                    assert(overlap_rect(rect, snap) == overlap_rect(snap, rect));
                }
                let dx = collision.width;
                let dy = collision.height;
                if dx < dy {
                    if player_rect.x < rect.x {
                        self.position.x = sat_coord(self.position.x - dx);
                    } else {
                        self.position.x = sat_coord(self.position.x + dx);
                    }
                    self.velocity.x = 0;
                } else {
                    if player_rect.y < rect.y {
                        self.position.y = sat_coord(self.position.y - dy);
                        self.velocity.y = 0;
                    } else {
                        self.position.y = sat_coord(self.position.y + dy);
                        self.velocity.y = 0;
                    }
                }
            }
            j = j + 1;
        }
        proof {
            assert(others_seq.take(players@.len() as int) =~= others_seq);
            lemma_overlap_records_empty(snap, env_seq);
            assert(forall|i2: int|
                0 <= i2 < env_seq.len() ==> env_seq[i2] == (#[trigger] ops@[i2]).rect);
        }
        collisions
    }
}

} // verus!
