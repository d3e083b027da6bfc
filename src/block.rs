use vstd::prelude::*;

use crate::math::vec2;
use crate::object::GameObject;
use crate::paddle::rectangle_fits;
use crate::shape::{Bounds, Box, Rectangle, Shape};

verus! {

/// A block: a rectangle that never moves, destroyed when the ball reaches it.
#[derive(Debug, Copy, Clone)]
pub struct Block {
    pub(crate) dimensions: vec2,
    pub(crate) origin: vec2,
}

/// A block as mathematical integers; `(x, y)` is its bottom-left corner.
pub struct BlockView {
    pub width: int,
    pub height: int,
    pub x: int,
    pub y: int,
}

impl BlockView {
    pub open spec fn bounds(self) -> Bounds {
        Bounds { left: self.x, right: self.x + self.width, bottom: self.y, top: self.y + self.height }
    }
}

impl View for Block {
    type V = BlockView;

    open(crate) spec fn view(&self) -> BlockView {
        BlockView {
            width: self.dimensions[0] as int,
            height: self.dimensions[1] as int,
            x: self.origin[0] as int,
            y: self.origin[1] as int,
        }
    }
}

impl Block {
    /// The lengths of a block are not negative.
    #[verifier::type_invariant]
    pub(crate) open spec fn lengths_valid(self) -> bool {
        self.dimensions[0] >= 0 && self.dimensions[1] >= 0
    }

    /// A block with the given dimensions, which are not negative, and
    /// bottom-left corner.
    pub fn new(dimensions: vec2, origin: vec2) -> (r: Self)
        requires
            dimensions[0] >= 0,
            dimensions[1] >= 0,
        ensures
            r@ == (BlockView {
                width: dimensions[0] as int,
                height: dimensions[1] as int,
                x: origin[0] as int,
                y: origin[1] as int,
            }),
    {
        Self { dimensions, origin }
    }

    pub fn dimensions(&self) -> (r: vec2)
        ensures
            r[0] == self@.width,
            r[1] == self@.height,
    {
        self.dimensions
    }
}

impl Shape for Block {
    open(crate) spec fn box_fits(&self) -> bool {
        rectangle_fits(self.dimensions, self.origin)
    }

    open(crate) spec fn spec_bounding_box(&self) -> Bounds {
        self@.bounds()
    }

    fn bounding_box(&self) -> (r: Box) {
        Box { left: self.left(), right: self.right(), bottom: self.bottom(), top: self.top() }
    }
}

impl Rectangle for Block {
    open(crate) spec fn spec_dimensions(&self) -> vec2 {
        self.dimensions
    }

    open(crate) spec fn spec_origin(&self) -> vec2 {
        self.origin
    }

    fn dimensions(&self) -> (r: vec2) {
        self.dimensions
    }

    fn origin(&self) -> (r: vec2) {
        self.origin
    }
}

impl GameObject for Block {
    open(crate) spec fn spec_location(&self) -> vec2 {
        self.origin
    }

    open(crate) spec fn spec_velocity(&self) -> vec2 {
        [0, 0]
    }

    open(crate) spec fn with_location(&self, location: vec2) -> Self {
        Block { origin: location, ..*self }
    }

    /// A block keeps its zero velocity.
    open(crate) spec fn with_velocity(&self, velocity: vec2) -> Self {
        *self
    }

    /// A block cannot move: the zero velocity is the only one it takes.
    open(crate) spec fn accepts_velocity(&self, velocity: vec2) -> bool {
        velocity == [0i64, 0i64]
    }

    fn location(&self) -> (r: vec2) {
        self.origin
    }

    fn velocity(&self) -> (r: vec2) {
        [0, 0]
    }

    fn set_location(&mut self, origin: vec2) {
        proof {
            use_type_invariant(&*self);
        }
        self.origin = origin;
    }

    fn set_velocity(&mut self, velocity: vec2) {
    }
}

} // verus!
