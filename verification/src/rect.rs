//! Axis-aligned boxes and groups of them, for hit detection.

use vstd::prelude::*;

verus! {

/// A point on the integer playfield grid.
#[derive(Clone, Copy, PartialEq, Eq, Structural, Debug)]
pub struct GridPoint {
    pub x: i32,
    pub y: i32,
}

/// An axis-aligned rectangle. `top_left` carries the smaller coordinates,
/// `bottom_right` the larger; an empty rectangle overlaps nothing.
#[derive(Clone, Copy, PartialEq, Eq, Structural, Debug)]
pub struct Rect {
    pub top_left: GridPoint,
    pub bottom_right: GridPoint,
}

/// Two rectangles overlap when they share interior in both axes; touching
/// edges do not count.
pub open spec fn spec_rects_overlap(a: Rect, b: Rect) -> bool {
    &&& a.top_left.x < b.bottom_right.x
    &&& a.bottom_right.x > b.top_left.x
    &&& a.top_left.y < b.bottom_right.y
    &&& a.bottom_right.y > b.top_left.y
}

impl Rect {
    pub fn collides(&self, other: &Rect) -> (r: bool)
        ensures
            r == spec_rects_overlap(*self, *other),
    {
        let horizontal_overlap = self.top_left.x < other.bottom_right.x
            && self.bottom_right.x > other.top_left.x;

        let vertical_overlap = self.top_left.y < other.bottom_right.y
            && self.bottom_right.y > other.top_left.y;

        horizontal_overlap && vertical_overlap
    }
}

pub struct CollisionBoxes {
    pub data: Vec<Rect>,
}

/// Two groups collide when any rectangle of one overlaps any of the other.
pub open spec fn spec_boxes_collide(a: Seq<Rect>, b: Seq<Rect>) -> bool {
    exists|i: int, j: int|
        0 <= i < a.len() && 0 <= j < b.len() && spec_rects_overlap(a[i], b[j])
}

impl CollisionBoxes {
    pub fn collides(&self, other: &CollisionBoxes) -> (r: bool)
        ensures
            r == spec_boxes_collide(self.data@, other.data@),
    {
        let n = self.data.len();
        for i in 0..n
            invariant
                n == self.data@.len(),
                forall|i2: int, j2: int|
                    0 <= i2 < i && 0 <= j2 < other.data@.len() ==> !spec_rects_overlap(
                        self.data@[i2],
                        other.data@[j2],
                    ),
        {
            let m = other.data.len();
            for j in 0..m
                invariant
                    n == self.data@.len(),
                    m == other.data@.len(),
                    i < n,
                    forall|j2: int| 0 <= j2 < j ==> !spec_rects_overlap(
                        self.data@[i as int],
                        other.data@[j2],
                    ),
                    forall|i2: int, j2: int|
                        0 <= i2 < i && 0 <= j2 < m ==> !spec_rects_overlap(
                            self.data@[i2],
                            other.data@[j2],
                        ),
            {
                if self.data[i].collides(&other.data[j]) {
                    return true;
                }
            }
        }
        false
    }
}

} // verus!
