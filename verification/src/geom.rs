//! Axis-aligned rectangles on an integer pixel grid.
//!
//! Batching only ever asks three questions of a rectangle: its area, whether
//! it overlaps another rectangle, and the bounding box of a set of
//! rectangles. All three are defined here with exact specifications.

use vstd::prelude::*;

verus! {

/// An axis-aligned rectangle given by its minimum and maximum corners.
///
/// A rectangle is *empty* when it has no extent on either axis; empty
/// rectangles never intersect anything and are absorbed by `union`.
#[derive(Clone, Copy, Debug, PartialEq, Eq, Structural)]
pub struct Rect {
    pub min_x: i32,
    pub min_y: i32,
    pub max_x: i32,
    pub max_y: i32,
}

/// Rectangles bounding primitives in the coordinate space of the picture
/// being batched.
pub type PictureRect = Rect;

/// Rectangles in whole device pixels, used for render-target extents.
pub type DeviceIntRect = Rect;

/// Rectangles in the local coordinate space of a primitive.
pub type LayoutRect = Rect;

impl Rect {
    /// True when the rectangle has no extent on at least one axis.
    pub open spec fn spec_is_empty(self) -> bool {
        self.max_x <= self.min_x || self.max_y <= self.min_y
    }

    /// Width times height. Meaningful for well-formed rectangles, where it is
    /// never negative.
    pub open spec fn spec_area(self) -> int {
        (self.max_x - self.min_x) * (self.max_y - self.min_y)
    }

    /// The corners are ordered: no negative extent on either axis.
    pub open spec fn wf(self) -> bool {
        self.min_x <= self.max_x && self.min_y <= self.max_y
    }

    /// Strict overlap: the interiors share at least one point.
    pub open spec fn spec_intersects(self, other: Rect) -> bool {
        self.min_x < other.max_x && other.min_x < self.max_x
            && self.min_y < other.max_y && other.min_y < self.max_y
    }

    /// The smallest rectangle containing both operands, where an empty
    /// operand contributes nothing.
    pub open spec fn spec_union(self, other: Rect) -> Rect {
        if other.spec_is_empty() {
            self
        } else if self.spec_is_empty() {
            other
        } else {
            Rect {
                min_x: if self.min_x <= other.min_x { self.min_x } else { other.min_x },
                min_y: if self.min_y <= other.min_y { self.min_y } else { other.min_y },
                max_x: if self.max_x >= other.max_x { self.max_x } else { other.max_x },
                max_y: if self.max_y >= other.max_y { self.max_y } else { other.max_y },
            }
        }
    }

    /// The rectangle with all four coordinates zero; it is empty.
    pub fn zero() -> (r: Rect)
        ensures
            r == (Rect { min_x: 0, min_y: 0, max_x: 0, max_y: 0 }),
            r.spec_is_empty(),
            r.wf(),
    {
        Rect { min_x: 0, min_y: 0, max_x: 0, max_y: 0 }
    }

    pub fn new(min_x: i32, min_y: i32, max_x: i32, max_y: i32) -> (r: Rect)
        ensures
            r == (Rect { min_x, min_y, max_x, max_y }),
    {
        Rect { min_x, min_y, max_x, max_y }
    }

    pub fn is_empty(&self) -> (r: bool)
        ensures
            r == self.spec_is_empty(),
    {
        self.max_x <= self.min_x || self.max_y <= self.min_y
    }

    /// The area in square pixels, exact in 128-bit arithmetic.
    pub fn area(&self) -> (r: i128)
        ensures
            r == self.spec_area(),
            -0x10000000000000000 <= r <= 0x10000000000000000,
    {
        let dx: i64 = self.max_x as i64 - self.min_x as i64;
        let dy: i64 = self.max_y as i64 - self.min_y as i64;
        proof {
            assert((dx as int) * (dy as int) <= 0x10000000000000000
                && (dx as int) * (dy as int) >= -0x10000000000000000) by (nonlinear_arith)
                requires
                    -0x100000000 <= dx as int <= 0x100000000,
                    -0x100000000 <= dy as int <= 0x100000000,
            ;
        }
        (dx as i128) * (dy as i128)
    }

    pub fn intersects(&self, other: &Rect) -> (r: bool)
        ensures
            r == self.spec_intersects(*other),
    {
        self.min_x < other.max_x && other.min_x < self.max_x
            && self.min_y < other.max_y && other.min_y < self.max_y
    }

    pub fn union(&self, other: &Rect) -> (r: Rect)
        ensures
            r == self.spec_union(*other),
    {
        if other.is_empty() {
            *self
        } else if self.is_empty() {
            *other
        } else {
            Rect {
                min_x: if self.min_x <= other.min_x { self.min_x } else { other.min_x },
                min_y: if self.min_y <= other.min_y { self.min_y } else { other.min_y },
                max_x: if self.max_x >= other.max_x { self.max_x } else { other.max_x },
                max_y: if self.max_y >= other.max_y { self.max_y } else { other.max_y },
            }
        }
    }
}

/// The bounding box of a whole sequence of rectangles, folded left to right.
pub open spec fn union_of(rects: Seq<Rect>) -> Rect
    decreases rects.len(),
{
    if rects.len() == 0 {
        Rect { min_x: 0, min_y: 0, max_x: 0, max_y: 0 }
    } else {
        union_of(rects.drop_last()).spec_union(rects.last())
    }
}

/// A union of well-formed rectangles is well-formed.
pub proof fn lemma_union_wf(a: Rect, b: Rect)
    requires
        a.wf(),
        b.wf(),
    ensures
        a.spec_union(b).wf(),
{
}

} // verus!
