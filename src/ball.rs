use vstd::prelude::*;

use crate::math::{vec2, SHAPE_LIMIT, within};
use crate::object::GameObject;
use crate::shape::{Bounds, Box, Circle, Shape};

verus! {

/// The ball: a circle with a velocity and a spin.
#[derive(Debug, Copy, Clone)]
pub struct Ball {
    pub(crate) radius: i64,
    pub(crate) midpoint: vec2,
    pub(crate) velocity: vec2,
    pub(crate) spin: i64,
}

/// A ball as mathematical integers.
pub struct BallView {
    pub radius: int,
    pub x: int,
    pub y: int,
    pub vx: int,
    pub vy: int,
    pub spin: int,
}

impl BallView {
    /// The square that holds the ball.
    pub open spec fn bounds(self) -> Bounds {
        Bounds {
            left: self.x - self.radius,
            right: self.x + self.radius,
            bottom: self.y - self.radius,
            top: self.y + self.radius,
        }
    }
}

impl View for Ball {
    type V = BallView;

    open(crate) spec fn view(&self) -> BallView {
        BallView {
            radius: self.radius as int,
            x: self.midpoint[0] as int,
            y: self.midpoint[1] as int,
            vx: self.velocity[0] as int,
            vy: self.velocity[1] as int,
            spin: self.spin as int,
        }
    }
}

impl Ball {
    /// A ball has a positive radius.
    #[verifier::type_invariant]
    pub(crate) open spec fn positive_radius(self) -> bool {
        self.radius > 0
    }

    /// A ball of the given radius at `midpoint`, moving at `velocity`, without
    /// spin.
    pub fn new(radius: i64, midpoint: vec2, velocity: vec2) -> (r: Self)
        requires
            radius > 0,
        ensures
            r@ == (BallView {
                radius: radius as int,
                x: midpoint[0] as int,
                y: midpoint[1] as int,
                vx: velocity[0] as int,
                vy: velocity[1] as int,
                spin: 0,
            }),
    {
        Self { radius, midpoint, velocity, spin: 0 }
    }

    pub fn spin(&self) -> (r: i64)
        ensures
            r == self@.spin,
    {
        self.spin
    }

    pub fn set_spin(&mut self, spin: i64)
        ensures
            final(self)@ == (BallView { spin: spin as int, ..old(self)@ }),
    {
        proof {
            use_type_invariant(&*self);
        }
        self.spin = spin
    }
}

impl Shape for Ball {
    open(crate) spec fn box_fits(&self) -> bool {
        0 <= self.radius <= SHAPE_LIMIT && within(self.midpoint[0] as int, SHAPE_LIMIT as int)
            && within(self.midpoint[1] as int, SHAPE_LIMIT as int)
    }

    open(crate) spec fn spec_bounding_box(&self) -> Bounds {
        self@.bounds()
    }

    fn bounding_box(&self) -> (r: Box) {
        let mid = self.origin();
        let r = self.radius();
        Box { left: mid[0] - r, right: mid[0] + r, bottom: mid[1] - r, top: mid[1] + r }
    }
}

impl Circle for Ball {
    open(crate) spec fn spec_radius(&self) -> i64 {
        self.radius
    }

    open(crate) spec fn spec_origin(&self) -> vec2 {
        self.midpoint
    }

    fn radius(&self) -> (r: i64)
        ensures
            r > 0,
    {
        proof {
            use_type_invariant(self);
        }
        self.radius
    }

    fn origin(&self) -> (r: vec2) {
        self.midpoint
    }
}

impl GameObject for Ball {
    open(crate) spec fn spec_location(&self) -> vec2 {
        self.midpoint
    }

    open(crate) spec fn spec_velocity(&self) -> vec2 {
        self.velocity
    }

    open(crate) spec fn with_location(&self, location: vec2) -> Self {
        Ball { midpoint: location, ..*self }
    }

    open(crate) spec fn with_velocity(&self, velocity: vec2) -> Self {
        Ball { velocity, ..*self }
    }

    open(crate) spec fn accepts_velocity(&self, velocity: vec2) -> bool {
        true
    }

    fn location(&self) -> (r: vec2) {
        self.midpoint
    }

    fn velocity(&self) -> (r: vec2) {
        self.velocity
    }

    fn set_location(&mut self, location: vec2) {
        proof {
            use_type_invariant(&*self);
        }
        self.midpoint = location
    }

    fn set_velocity(&mut self, velocity: vec2) {
        proof {
            use_type_invariant(&*self);
        }
        self.velocity = velocity
    }
}

} // verus!
