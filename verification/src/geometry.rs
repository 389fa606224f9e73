//! Axis-aligned rectangles and their overlap.

use vstd::prelude::*;

verus! {

/// An axis-aligned rectangle, given by its centre and its full size.
#[derive(Clone, Copy, Debug, PartialEq, Eq, Structural)]
pub struct Rect {
    pub center_x: i64,
    pub center_y: i64,
    pub width: i64,
    pub height: i64,
}

/// The distance between two points of a line.
pub open spec fn gap(a: int, b: int) -> int {
    if a <= b {
        b - a
    } else {
        a - b
    }
}

impl Rect {
    /// Two rectangles overlap when, on each axis, their centres are closer
    /// than the sum of their half extents. Rectangles that only touch do not
    /// overlap. Doubling both sides keeps the arithmetic whole.
    pub open spec fn overlaps(self, other: Rect) -> bool {
        &&& 2 * gap(self.center_x as int, other.center_x as int) < self.width + other.width
        &&& 2 * gap(self.center_y as int, other.center_y as int) < self.height + other.height
    }

    /// The left edge, doubled.
    pub open spec fn left2(self) -> int {
        2 * self.center_x - self.width
    }

    /// The right edge, doubled.
    pub open spec fn right2(self) -> int {
        2 * self.center_x + self.width
    }

    /// The bottom edge, doubled.
    pub open spec fn bottom2(self) -> int {
        2 * self.center_y - self.height
    }

    /// The top edge, doubled.
    pub open spec fn top2(self) -> int {
        2 * self.center_y + self.height
    }

    /// The rectangle of the given size around the given centre.
    pub fn new(center_x: i64, center_y: i64, width: i64, height: i64) -> (r: Rect)
        ensures
            r == (Rect { center_x, center_y, width, height }),
    {
        Rect { center_x, center_y, width, height }
    }

    /// Whether the two rectangles overlap.
    pub fn intersects(&self, other: &Rect) -> (hit: bool)
        ensures
            hit == self.overlaps(*other),
    {
        let dx: i128 = span(self.center_x, other.center_x);
        let dy: i128 = span(self.center_y, other.center_y);
        let reach_x: i128 = self.width as i128 + other.width as i128;
        let reach_y: i128 = self.height as i128 + other.height as i128;
        2 * dx < reach_x && 2 * dy < reach_y
    }
}

/// The distance between `a` and `b`, in a type wide enough for any pair.
pub fn span(a: i64, b: i64) -> (d: i128)
    ensures
        d == gap(a as int, b as int),
{
    if a <= b {
        b as i128 - a as i128
    } else {
        a as i128 - b as i128
    }
}

/// Overlap does not depend on which rectangle is named first.
pub proof fn lemma_overlap_symmetric(a: Rect, b: Rect)
    ensures
        a.overlaps(b) == b.overlaps(a),
{
}

/// Overlap is the strict crossing of edges on both axes: each rectangle's
/// lower edge lies strictly below the other's upper edge.
pub proof fn lemma_overlap_by_edges(a: Rect, b: Rect)
    ensures
        a.overlaps(b) <==> (a.left2() < b.right2() && a.right2() > b.left2() && a.bottom2()
            < b.top2() && a.top2() > b.bottom2()),
{
}

/// Rectangles that share an edge, or lie apart on one axis, do not overlap.
pub proof fn lemma_touching_is_not_overlap(a: Rect, b: Rect)
    requires
        a.right2() <= b.left2() || b.right2() <= a.left2() || a.top2() <= b.bottom2() || b.top2()
            <= a.bottom2(),
    ensures
        !a.overlaps(b),
{
}

} // verus!
