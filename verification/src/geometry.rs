//! Axis-aligned rectangles, the collision primitive of every entity.
use vstd::prelude::*;
use crate::fixed::{RECT_LIMIT, WORLD_LIMIT};

verus! {

/// An axis-aligned rectangle: top-left corner and extent, in length
/// steps. The vertical axis points down.
#[derive(Clone, Copy, Debug, PartialEq, Eq, Structural)]
pub struct Rect {
    pub x: i64,
    pub y: i64,
    pub w: i64,
    pub h: i64,
}

impl Rect {
    /// The corner lies inside the representable world and the extent is
    /// not negative, so edge sums cannot overflow.
    pub open spec fn wf(self) -> bool {
        &&& -RECT_LIMIT <= self.x <= RECT_LIMIT
        &&& -RECT_LIMIT <= self.y <= RECT_LIMIT
        &&& 0 <= self.w <= WORLD_LIMIT
        &&& 0 <= self.h <= WORLD_LIMIT
    }

    /// The two rectangles share interior area; touching edges do not
    /// count.
    pub open spec fn overlaps_spec(self, other: Rect) -> bool {
        &&& self.x < other.x + other.w
        &&& self.x + self.w > other.x
        &&& self.y < other.y + other.h
        &&& self.y + self.h > other.y
    }

    /// Overlap test of two rectangles.
    pub fn overlaps(&self, other: &Rect) -> (r: bool)
        requires
            self.wf(),
            other.wf(),
        ensures
            r == self.overlaps_spec(*other),
    {
        self.x < other.x + other.w && self.x + self.w > other.x && self.y < other.y + other.h
            && self.y + self.h > other.y
    }
}

} // verus!
