//! The territory canvas: an off-screen pixel buffer that painting mutates
//! and scoring scans. Pixels are stored row-major; painting draws filled
//! discs of a fixed radius, and scoring classifies every pixel by exact
//! red-green-blue match against the players' colors.

use vstd::prelude::*;
use vstd::arithmetic::mul::lemma_mul_is_commutative;
use crate::collision::{PAINT_RADIUS, PAINT_RADIUS_PX};
use crate::color::{background_color, rgb_eq, Rgba};
use crate::geom::Vec2;
use crate::scalar::{round_px, round_to_px};

verus! {

/// Largest canvas extent on either axis, in pixels.
pub const CANVAS_LIMIT: usize = 10_000;

/// An off-screen pixel buffer, row-major.
#[derive(Debug)]
pub struct Canvas {
    pub width: usize,
    pub height: usize,
    pub pixels: Vec<Rgba>,
}

/// Whether pixel `(px, py)` lies in the filled disc of radius `r` around
/// `(cx, cy)`.
pub open spec fn in_disc(cx: int, cy: int, r: int, px: int, py: int) -> bool {
    (px - cx) * (px - cx) + (py - cy) * (py - cy) <= r * r
}

/// A row-major pixel buffer after a filled disc of radius `r` at
/// `(cx, cy)` is drawn in `color`: every pixel in the disc takes the
/// color, every other pixel keeps its value.
pub open spec fn disc_painted_seq(
    pixels: Seq<Rgba>,
    width: int,
    cx: int,
    cy: int,
    r: int,
    color: Rgba,
) -> Seq<Rgba> {
    Seq::new(
        pixels.len(),
        |k: int|
            if in_disc(cx, cy, r, k % width, k / width) {
                color
            } else {
                pixels[k]
            },
    )
}

impl Canvas {
    /// The bounds every canvas satisfies: the buffer holds exactly one
    /// pixel per cell, and neither extent outgrows the limit.
    pub open spec fn wf(self) -> bool {
        &&& self.pixels@.len() == self.width * self.height
        &&& 0 < self.width <= CANVAS_LIMIT
        &&& 0 < self.height <= CANVAS_LIMIT
    }

    /// The buffer after a filled disc of radius `r` at `(cx, cy)` is drawn
    /// in `color`.
    pub open spec fn disc_painted(self, cx: int, cy: int, r: int, color: Rgba) -> Seq<Rgba> {
        disc_painted_seq(self.pixels@, self.width as int, cx, cy, r, color)
    }

    /// A fresh canvas, every pixel the transparent background.
    pub fn new(width: usize, height: usize) -> (c: Canvas)
        requires
            0 < width <= CANVAS_LIMIT,
            0 < height <= CANVAS_LIMIT,
        ensures
            c.wf(),
            c.width == width,
            c.height == height,
            forall|k: int| 0 <= k < c.pixels@.len() ==> c.pixels@[k] == background_color(),
    {
        proof {
            assert(0 <= width * height <= 100_000_000) by (nonlinear_arith)
                requires
                    0 < width <= 10_000,
                    0 < height <= 10_000,
            ;
        }
        let total = width * height;
        let mut pixels: Vec<Rgba> = Vec::new();
        let mut k: usize = 0;
        while k < total
            invariant
                0 <= k <= total,
                pixels@.len() == k,
                forall|j: int| 0 <= j < pixels@.len() ==> pixels@[j] == background_color(),
            decreases total - k,
        {
            pixels.push(Rgba { r: 255, g: 255, b: 255, a: 0 });
            k = k + 1;
        }
        Canvas { width, height, pixels }
    }

    /// Every pixel reset to the transparent background; the extent stays.
    pub fn clear(&mut self)
        requires
            old(self).wf(),
        ensures
            final(self).wf(),
            final(self).width == old(self).width,
            final(self).height == old(self).height,
            forall|k: int|
                0 <= k < final(self).pixels@.len() ==> final(self).pixels@[k]
                    == background_color(),
    {
        let total = self.pixels.len();
        let mut k: usize = 0;
        while k < total
            invariant
                0 <= k <= total,
                self.pixels@.len() == total,
                self.width == old(self).width,
                self.height == old(self).height,
                self.wf(),
                forall|j: int| 0 <= j < k ==> self.pixels@[j] == background_color(),
            decreases total - k,
        {
            self.pixels.set(k, Rgba { r: 255, g: 255, b: 255, a: 0 });
            k = k + 1;
        }
    }

    /// The pixel at `(x, y)`.
    pub fn get_color(&self, x: usize, y: usize) -> (p: Rgba)
        requires
            self.wf(),
            x < self.width,
            y < self.height,
        ensures
            p == self.pixels@[y * self.width + x],
    {
        proof {
            assert(y * self.width + x < self.width * self.height && y * self.width + x
                <= 100_000_000) by (nonlinear_arith)
                requires
                    0 <= x < self.width,
                    0 <= y < self.height,
                    self.width <= 10_000,
                    self.height <= 10_000,
            ;
        }
        self.pixels[y * self.width + x]
    }

    /// Draws a filled disc of radius `r` around `(cx, cy)` in `color`,
    /// exactly as [`Canvas::disc_painted`] states: pixels in the disc take
    /// the color, all others keep theirs. Centers far off the canvas paint
    /// nothing.
    pub fn draw_circle(&mut self, cx: i64, cy: i64, r: i64, color: Rgba)
        requires
            old(self).wf(),
            0 <= r <= 10_000,
            -4_000_000_000_000 <= cx <= 4_000_000_000_000,
            -4_000_000_000_000 <= cy <= 4_000_000_000_000,
        ensures
            final(self).wf(),
            final(self).width == old(self).width,
            final(self).height == old(self).height,
            final(self).pixels@ == old(self).disc_painted(cx as int, cy as int, r as int, color),
    {
        let w = self.width;
        let h = self.height;
        if cx + r < 0 || cx - r >= w as i64 || cy + r < 0 || cy - r >= h as i64 {
            proof {
                assert forall|k: int| 0 <= k < self.pixels@.len() implies ! #[trigger] in_disc(
                    cx as int,
                    cy as int,
                    r as int,
                    k % (w as int),
                    k / (w as int),
                ) by {
                    let px = k % (w as int);
                    let py = k / (w as int);
                    assert(0 <= px < w);
                    assert(0 <= py < h) by {
                        assert(self.pixels@.len() == w * h);
                        vstd::arithmetic::div_mod::lemma_div_pos_is_pos(k, w as int);
                        vstd::arithmetic::div_mod::lemma_multiply_divide_lt(k, w as int, h as int);
                        lemma_mul_is_commutative(w as int, h as int);
                    }
                    lemma_square_bound(cx as int, cy as int, r as int, px, py);
                }
                assert(self.pixels@ =~= old(self).disc_painted(cx as int, cy as int, r as int, color));
            }
            return ;
        }
        let total = self.pixels.len();
        let mut k: usize = 0;
        while k < total
            invariant
                0 <= k <= total,
                self.pixels@.len() == total,
                self.width == w,
                self.height == h,
                self.wf(),
                old(self).wf(),
                old(self).width == w,
                old(self).height == h,
                old(self).pixels@.len() == total,
                0 <= r <= 10_000,
                -(r as int) <= cx as int,
                (cx as int) < w as int + r,
                -(r as int) <= cy as int,
                (cy as int) < h as int + r,
                forall|j: int|
                    0 <= j < k ==> self.pixels@[j] == old(self).disc_painted(
                        cx as int,
                        cy as int,
                        r as int,
                        color,
                    )[j],
                forall|j: int| k <= j < total ==> self.pixels@[j] == old(self).pixels@[j],
            decreases total - k,
        {
            let x = k % w;
            let y = k / w;
            proof {
                vstd::arithmetic::div_mod::lemma_multiply_divide_lt(k as int, w as int, h as int);
                assert(0 <= y < h);
                assert(0 <= x < w);
            }
            let dx = x as i64 - cx;
            let dy = y as i64 - cy;
            proof {
                assert(-30_100 <= dx <= 30_100);
                assert(-30_100 <= dy <= 30_100);
                assert(dx * dx + dy * dy <= 2_000_000_000) by (nonlinear_arith)
                    requires
                        -30_100 <= dx <= 30_100,
                        -30_100 <= dy <= 30_100,
                ;
                assert(0 <= dx * dx) by (nonlinear_arith);
                assert(0 <= dy * dy) by (nonlinear_arith);
                assert(0 <= r * r <= 100_000_000) by (nonlinear_arith)
                    requires
                        0 <= r <= 10_000,
                ;
            }
            if dx * dx + dy * dy <= r * r {
                self.pixels.set(k, color);
            }
            k = k + 1;
        }
        proof {
            assert(self.pixels@ =~= old(self).disc_painted(cx as int, cy as int, r as int, color));
        }
    }
}

/// A point more than `r` away from the center on either axis lies outside
/// the disc of radius `r`.
pub proof fn lemma_square_bound(cx: int, cy: int, r: int, px: int, py: int)
    requires
        0 <= r,
        px < cx - r || px > cx + r || py < cy - r || py > cy + r,
    ensures
        !in_disc(cx, cy, r, px, py),
{
    let dx = px - cx;
    let dy = py - cy;
    assert(dx * dx > r * r || dy * dy > r * r) by (nonlinear_arith)
        requires
            0 <= r,
            dx < -r || dx > r || dy < -r || dy > r,
    ;
    assert(0 <= dx * dx) by (nonlinear_arith);
    assert(0 <= dy * dy) by (nonlinear_arith);
}

/// Which player a pixel counts for: the first of the four colors whose
/// three channels match exactly, or nobody. Classification is by exact
/// match alone for every configured player count: gating the third and
/// fourth counts by the player count instead would hand every unmatched
/// pixel — the background included — to player three, a scoring defect
/// this design rejects.
pub open spec fn classify(p: Rgba, c1: Rgba, c2: Rgba, c3: Rgba, c4: Rgba) -> Option<int> {
    if rgb_eq(p, c1) {
        Some(0int)
    } else if rgb_eq(p, c2) {
        Some(1int)
    } else if rgb_eq(p, c3) {
        Some(2int)
    } else if rgb_eq(p, c4) {
        Some(3int)
    } else {
        None
    }
}

/// How many of the first `upto` pixels classify to player `who`.
pub open spec fn class_count(
    pixels: Seq<Rgba>,
    c1: Rgba,
    c2: Rgba,
    c3: Rgba,
    c4: Rgba,
    who: int,
    upto: int,
) -> int
    decreases upto,
{
    if upto <= 0 {
        0
    } else {
        class_count(pixels, c1, c2, c3, c4, who, upto - 1) + (
            if classify(pixels[upto - 1], c1, c2, c3, c4) == Some(who) {
                1int
            } else {
                0int
            }
        )
    }
}

/// How many of the first `upto` pixels carry exactly this color's three
/// channels.
pub open spec fn color_count(pixels: Seq<Rgba>, c: Rgba, upto: int) -> int
    decreases upto,
{
    if upto <= 0 {
        0
    } else {
        color_count(pixels, c, upto - 1) + (
            if rgb_eq(pixels[upto - 1], c) {
                1int
            } else {
                0int
            }
        )
    }
}

/// Scans the whole canvas and counts, for each of the four players, the
/// pixels that classify to it under [`classify`]. The configured player
/// count names the round's configuration and does not influence
/// classification (see [`classify`] for why). The territory percentages
/// are these counts over their sum; the sum can be zero (a fresh
/// canvas), which the caller must treat as no score rather than divide.
pub fn calculate_winner(
    image: &Canvas,
    players_count: usize,
    player1_color: &Rgba,
    player2_color: &Rgba,
    player3_color: &Rgba,
    player4_color: &Rgba,
) -> (counts: Vec<u64>)
    requires
        image.wf(),
    ensures
        counts@.len() == 4,
        forall|who: int|
            0 <= who < 4 ==> counts@[who] == class_count(
                image.pixels@,
                *player1_color,
                *player2_color,
                *player3_color,
                *player4_color,
                who,
                image.pixels@.len() as int,
            ),
        forall|who: int| 0 <= who < 4 ==> counts@[who] <= image.pixels@.len(),
{
    let ghost c1 = *player1_color;
    let ghost c2 = *player2_color;
    let ghost c3 = *player3_color;
    let ghost c4 = *player4_color;
    let total = image.pixels.len();
    let mut count0: u64 = 0;
    let mut count1: u64 = 0;
    let mut count2: u64 = 0;
    let mut count3: u64 = 0;
    let mut k: usize = 0;
    while k < total
        invariant
            0 <= k <= total,
            image.pixels@.len() == total,
            count0 == class_count(image.pixels@, c1, c2, c3, c4, 0, k as int),
            count1 == class_count(image.pixels@, c1, c2, c3, c4, 1, k as int),
            count2 == class_count(image.pixels@, c1, c2, c3, c4, 2, k as int),
            count3 == class_count(image.pixels@, c1, c2, c3, c4, 3, k as int),
            count0 <= k && count1 <= k && count2 <= k && count3 <= k,
            c1 == *player1_color && c2 == *player2_color && c3 == *player3_color && c4
                == *player4_color,
        decreases total - k,
    {
        let p = image.pixels[k];
        if p.r == player1_color.r && p.g == player1_color.g && p.b == player1_color.b {
            count0 = count0 + 1;
        } else if p.r == player2_color.r && p.g == player2_color.g && p.b == player2_color.b {
            count1 = count1 + 1;
        } else if p.r == player3_color.r && p.g == player3_color.g && p.b == player3_color.b {
            count2 = count2 + 1;
        } else if p.r == player4_color.r && p.g == player4_color.g && p.b == player4_color.b {
            count3 = count3 + 1;
        }
        k = k + 1;
    }
    let mut counts: Vec<u64> = Vec::new();
    counts.push(count0);
    counts.push(count1);
    counts.push(count2);
    counts.push(count3);
    counts
}

/// A pixel buffer after a run of paint marks is drawn in order, each a
/// disc of the paint radius centered at the mark pulled back by one
/// radius and rounded to the nearest pixel.
pub open spec fn painted_points_seq(
    pixels: Seq<Rgba>,
    width: int,
    color: Rgba,
    pts: Seq<Vec2>,
) -> Seq<Rgba>
    decreases pts.len(),
{
    if pts.len() == 0 {
        pixels
    } else {
        disc_painted_seq(
            painted_points_seq(pixels, width, color, pts.drop_last()),
            width,
            round_px(pts.last().x - PAINT_RADIUS as int),
            round_px(pts.last().y - PAINT_RADIUS as int),
            PAINT_RADIUS_PX as int,
            color,
        )
    }
}

/// A pixel buffer after every overlap record's paint marks are drawn in
/// order.
pub open spec fn painted_records_seq(
    pixels: Seq<Rgba>,
    width: int,
    color: Rgba,
    recs: Seq<(crate::geom::Rect, crate::geom::Rect)>,
) -> Seq<Rgba>
    decreases recs.len(),
{
    if recs.len() == 0 {
        pixels
    } else {
        painted_points_seq(
            painted_records_seq(pixels, width, color, recs.drop_last()),
            width,
            color,
            crate::collision::paint_points_spec(recs.last().1),
        )
    }
}

/// Painting marks never changes the buffer's length.
pub proof fn lemma_painted_points_len(pixels: Seq<Rgba>, width: int, color: Rgba, pts: Seq<Vec2>)
    ensures
        painted_points_seq(pixels, width, color, pts).len() == pixels.len(),
    decreases pts.len(),
{
    if pts.len() > 0 {
        lemma_painted_points_len(pixels, width, color, pts.drop_last());
    }
}

/// Painting records never changes the buffer's length.
pub proof fn lemma_painted_records_len(
    pixels: Seq<Rgba>,
    width: int,
    color: Rgba,
    recs: Seq<(crate::geom::Rect, crate::geom::Rect)>,
)
    ensures
        painted_records_seq(pixels, width, color, recs).len() == pixels.len(),
    decreases recs.len(),
{
    if recs.len() > 0 {
        lemma_painted_records_len(pixels, width, color, recs.drop_last());
        lemma_painted_points_len(
            painted_records_seq(pixels, width, color, recs.drop_last()),
            width,
            color,
            crate::collision::paint_points_spec(recs.last().1),
        );
    }
}

impl crate::player::Player {
    /// Paints one collision mark onto the territory canvas: a filled disc
    /// of the paint radius in the player's color, centered at the
    /// collision point pulled back by one radius on each axis and rounded
    /// to the nearest pixel.
    pub fn paint(&self, image: &mut Canvas, collision_point: Vec2)
        requires
            old(image).wf(),
            -3_000_000_000_000 <= collision_point.x <= 3_000_000_000_000,
            -3_000_000_000_000 <= collision_point.y <= 3_000_000_000_000,
        ensures
            final(image).wf(),
            final(image).width == old(image).width,
            final(image).height == old(image).height,
            final(image).pixels@ == disc_painted_seq(
                old(image).pixels@,
                old(image).width as int,
                round_px(collision_point.x - PAINT_RADIUS as int),
                round_px(collision_point.y - PAINT_RADIUS as int),
                PAINT_RADIUS_PX as int,
                self.color,
            ),
    {
        let image_x = round_to_px(collision_point.x - PAINT_RADIUS);
        let image_y = round_to_px(collision_point.y - PAINT_RADIUS);
        image.draw_circle(image_x, image_y, PAINT_RADIUS_PX, self.color);
    }
}

/// The first index holding the greatest count: every count is at most the
/// winner's, and every earlier count is strictly below it.
pub fn winner_index(counts: &Vec<u64>) -> (w: usize)
    requires
        counts@.len() == 4,
    ensures
        0 <= w < 4,
        forall|i: int| 0 <= i < 4 ==> counts@[i] <= counts@[w as int],
        forall|i: int| 0 <= i < w ==> counts@[i] < counts@[w as int],
{
    let mut w: usize = 0;
    let mut i: usize = 1;
    while i < 4
        invariant
            1 <= i <= 4,
            0 <= w < i,
            counts@.len() == 4,
            forall|j: int| 0 <= j < i ==> counts@[j] <= counts@[w as int],
            forall|j: int| 0 <= j < w ==> counts@[j] < counts@[w as int],
        decreases 4 - i,
    {
        if counts[i] > counts[w] {
            w = i;
        }
        i = i + 1;
    }
    w
}

} // verus!
