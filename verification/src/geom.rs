//! Axis-aligned rectangle geometry: overlap tests and the overlap
//! rectangle that collision response and painting both consume.

use vstd::prelude::*;
use crate::scalar::{COORD_LIMIT, TUNING_LIMIT};

verus! {

/// A point or displacement in world space, in milliunits.
#[derive(Clone, Copy, PartialEq, Eq, Structural, Debug)]
pub struct Vec2 {
    pub x: i64,
    pub y: i64,
}

/// An axis-aligned rectangle: top-left corner plus extent, in milliunits.
#[derive(Clone, Copy, PartialEq, Eq, Structural, Debug)]
pub struct Rect {
    pub x: i64,
    pub y: i64,
    pub width: i64,
    pub height: i64,
}

impl Rect {
    /// Bounds under which all rectangle arithmetic stays in range: the
    /// corner within twice the coordinate saturation bound (a player box
    /// corner is its saturated center offset by half a box size), the
    /// extent positive and no wider than the tuning bound allows.
    pub open spec fn wf(self) -> bool {
        &&& -2 * (COORD_LIMIT as int) <= self.x <= 2 * (COORD_LIMIT as int)
        &&& -2 * (COORD_LIMIT as int) <= self.y <= 2 * (COORD_LIMIT as int)
        &&& 0 < self.width <= TUNING_LIMIT as int
        &&& 0 < self.height <= TUNING_LIMIT as int
    }
}

/// Two rectangles overlap when each starts strictly before the other ends,
/// on both axes; boxes that merely touch along an edge do not overlap.
pub open spec fn rects_overlap(a: Rect, b: Rect) -> bool {
    &&& a.x < b.x + b.width
    &&& b.x < a.x + a.width
    &&& a.y < b.y + b.height
    &&& b.y < a.y + a.height
}

/// The rectangle common to two overlapping rectangles.
pub open spec fn overlap_rect(a: Rect, b: Rect) -> Rect {
    let x = if a.x >= b.x { a.x } else { b.x };
    let y = if a.y >= b.y { a.y } else { b.y };
    let xe = if a.x + a.width <= b.x + b.width { a.x + a.width } else { b.x + b.width };
    let ye = if a.y + a.height <= b.y + b.height { a.y + a.height } else { b.y + b.height };
    Rect { x: x as i64, y: y as i64, width: (xe - x) as i64, height: (ye - y) as i64 }
}

impl Rect {
    /// The overlap rectangle of `self` and `other`, or `None` when the two
    /// do not overlap. The overlap of overlapping rectangles has strictly
    /// positive extent on both axes.
    pub fn get_collision_rec(&self, other: &Rect) -> (r: Option<Rect>)
        requires
            self.wf(),
            other.wf(),
        ensures
            r is Some <==> rects_overlap(*self, *other),
            r matches Some(o) ==> o == overlap_rect(*self, *other),
            r matches Some(o) ==> o.wf() && 0 < o.width && 0 < o.height,
    {
        if self.x < other.x + other.width && other.x < self.x + self.width
            && self.y < other.y + other.height && other.y < self.y + self.height {
            let x = if self.x >= other.x { self.x } else { other.x };
            let y = if self.y >= other.y { self.y } else { other.y };
            let se_x = self.x + self.width;
            let oe_x = other.x + other.width;
            let se_y = self.y + self.height;
            let oe_y = other.y + other.height;
            let xe = if se_x <= oe_x { se_x } else { oe_x };
            let ye = if se_y <= oe_y { se_y } else { oe_y };
            Some(Rect { x, y, width: xe - x, height: ye - y })
        } else {
            None
        }
    }
}

} // verus!
