use vstd::prelude::*;

use crate::math::vec2;

verus! {

/// An axis-aligned box, as its four edges.
#[derive(Debug, Clone, Copy, PartialEq, Eq, Structural)]
pub struct Box {
    pub left: i64,
    pub right: i64,
    pub bottom: i64,
    pub top: i64,
}

/// The edges of a box as mathematical integers.
pub struct Bounds {
    pub left: int,
    pub right: int,
    pub bottom: int,
    pub top: int,
}

impl Bounds {
    /// The edges are in order.
    pub open spec fn wf(self) -> bool {
        self.left <= self.right && self.bottom <= self.top
    }
}

impl View for Box {
    type V = Bounds;

    open spec fn view(&self) -> Bounds {
        Bounds {
            left: self.left as int,
            right: self.right as int,
            bottom: self.bottom as int,
            top: self.top as int,
        }
    }
}

impl Box {
    /// The edges are in order.
    pub open spec fn wf(self) -> bool {
        self@.wf()
    }
}

/// Two closed intervals `[a_lo, a_hi]` and `[b_lo, b_hi]` share a point.
pub open spec fn segments_meet(a_lo: int, a_hi: int, b_lo: int, b_hi: int) -> bool {
    a_hi >= b_lo && b_hi >= a_lo
}

/// Both projections of the two boxes overlap; boxes that only touch meet.
pub open spec fn bounds_meet(a: Bounds, b: Bounds) -> bool {
    segments_meet(a.left, a.right, b.left, b.right) && segments_meet(a.bottom, a.top, b.bottom, b.top)
}

/// Anything with a bounding box: the only capability that collision detection
/// needs.
pub trait Shape {
    /// The coordinates and lengths of the shape are small enough for its box to
    /// be computed, and its lengths are not negative.
    spec fn box_fits(&self) -> bool;

    /// The shape's bounding box.
    spec fn spec_bounding_box(&self) -> Bounds;

    fn bounding_box(&self) -> (r: Box)
        requires
            self.box_fits(),
        ensures
            r@ == self.spec_bounding_box(),
            r.wf(),
    ;
}

/// An axis-aligned rectangle, given by its dimensions and its bottom-left
/// corner.
pub trait Rectangle {
    spec fn spec_dimensions(&self) -> vec2;

    spec fn spec_origin(&self) -> vec2;

    fn dimensions(&self) -> (r: vec2)
        ensures
            r == self.spec_dimensions(),
    ;

    /// The bottom-left corner.
    fn origin(&self) -> (r: vec2)
        ensures
            r == self.spec_origin(),
    ;

    fn left(&self) -> (r: i64)
        ensures
            r == self.spec_origin()[0],
    {
        self.origin()[0]
    }

    fn right(&self) -> (r: i64)
        requires
            i64::MIN <= self.spec_origin()[0] + self.spec_dimensions()[0] <= i64::MAX,
        ensures
            r == self.spec_origin()[0] + self.spec_dimensions()[0],
    {
        self.left() + self.dimensions()[0]
    }

    fn bottom(&self) -> (r: i64)
        ensures
            r == self.spec_origin()[1],
    {
        self.origin()[1]
    }

    fn top(&self) -> (r: i64)
        requires
            i64::MIN <= self.spec_origin()[1] + self.spec_dimensions()[1] <= i64::MAX,
        ensures
            r == self.spec_origin()[1] + self.spec_dimensions()[1],
    {
        self.bottom() + self.dimensions()[1]
    }
}

/// A circle, given by its radius and its center.
pub trait Circle {
    spec fn spec_radius(&self) -> i64;

    spec fn spec_origin(&self) -> vec2;

    fn radius(&self) -> (r: i64)
        ensures
            r == self.spec_radius(),
    ;

    /// The center.
    fn origin(&self) -> (r: vec2)
        ensures
            r == self.spec_origin(),
    ;
}

} // verus!
