use vstd::prelude::*;

use crate::math::{vec2, SHAPE_LIMIT, within};
use crate::object::GameObject;
use crate::shape::{Bounds, Box, Rectangle, Shape};

verus! {

/// The player's paddle: a rectangle that moves at a velocity set from input.
#[derive(Debug, Copy, Clone)]
pub struct Paddle {
    pub(crate) dimensions: vec2,
    pub(crate) origin: vec2,
    pub(crate) velocity: vec2,
}

/// A paddle as mathematical integers; `(x, y)` is its bottom-left corner.
pub struct PaddleView {
    pub width: int,
    pub height: int,
    pub x: int,
    pub y: int,
    pub vx: int,
    pub vy: int,
}

impl PaddleView {
    pub open spec fn bounds(self) -> Bounds {
        Bounds { left: self.x, right: self.x + self.width, bottom: self.y, top: self.y + self.height }
    }
}

impl View for Paddle {
    type V = PaddleView;

    open(crate) spec fn view(&self) -> PaddleView {
        PaddleView {
            width: self.dimensions[0] as int,
            height: self.dimensions[1] as int,
            x: self.origin[0] as int,
            y: self.origin[1] as int,
            vx: self.velocity[0] as int,
            vy: self.velocity[1] as int,
        }
    }
}

/// Both lengths of a rectangle lie in `[0, SHAPE_LIMIT]` and its corner within
/// `SHAPE_LIMIT` of the origin.
pub open spec fn rectangle_fits(dimensions: vec2, origin: vec2) -> bool {
    0 <= dimensions[0] <= SHAPE_LIMIT && 0 <= dimensions[1] <= SHAPE_LIMIT
        && within(origin[0] as int, SHAPE_LIMIT as int) && within(origin[1] as int, SHAPE_LIMIT as int)
}

impl Paddle {
    /// A paddle has a positive width and a height that is not negative.
    #[verifier::type_invariant]
    pub(crate) open spec fn lengths_valid(self) -> bool {
        self.dimensions[0] > 0 && self.dimensions[1] >= 0
    }

    /// A paddle at rest with the given dimensions and bottom-left corner; it
    /// has a positive width.
    pub fn new(dimensions: vec2, origin: vec2) -> (r: Self)
        requires
            dimensions[0] > 0,
            dimensions[1] >= 0,
        ensures
            r@ == (PaddleView {
                width: dimensions[0] as int,
                height: dimensions[1] as int,
                x: origin[0] as int,
                y: origin[1] as int,
                vx: 0,
                vy: 0,
            }),
    {
        Self { dimensions, origin, velocity: [0, 0] }
    }

    pub fn dimensions(&self) -> (r: vec2)
        ensures
            r[0] == self@.width,
            r[1] == self@.height,
    {
        self.dimensions
    }
}

impl Shape for Paddle {
    open(crate) spec fn box_fits(&self) -> bool {
        rectangle_fits(self.dimensions, self.origin)
    }

    open(crate) spec fn spec_bounding_box(&self) -> Bounds {
        self@.bounds()
    }

    fn bounding_box(&self) -> (r: Box) {
        Box { left: self.left(), right: self.right(), bottom: self.bottom(), top: self.top() }
    }
}

impl Rectangle for Paddle {
    open(crate) spec fn spec_dimensions(&self) -> vec2 {
        self.dimensions
    }

    open(crate) spec fn spec_origin(&self) -> vec2 {
        self.origin
    }

    fn dimensions(&self) -> (r: vec2) {
        self.dimensions
    }

    fn origin(&self) -> (r: vec2) {
        self.origin
    }
}

impl GameObject for Paddle {
    open(crate) spec fn spec_location(&self) -> vec2 {
        self.origin
    }

    open(crate) spec fn spec_velocity(&self) -> vec2 {
        self.velocity
    }

    open(crate) spec fn with_location(&self, location: vec2) -> Self {
        Paddle { origin: location, ..*self }
    }

    open(crate) spec fn with_velocity(&self, velocity: vec2) -> Self {
        Paddle { velocity, ..*self }
    }

    open(crate) spec fn accepts_velocity(&self, velocity: vec2) -> bool {
        true
    }

    fn location(&self) -> (r: vec2) {
        self.origin
    }

    fn velocity(&self) -> (r: vec2) {
        self.velocity
    }

    fn set_location(&mut self, location: vec2) {
        proof {
            use_type_invariant(&*self);
        }
        self.origin = location
    }

    fn set_velocity(&mut self, velocity: vec2) {
        proof {
            use_type_invariant(&*self);
        }
        self.velocity = velocity
    }
}

} // verus!
