use vstd::prelude::*;

use crate::math::vec2;

verus! {

/// Something in the play-field with a location and a velocity.
pub trait GameObject: Sized {
    spec fn spec_location(&self) -> vec2;

    spec fn spec_velocity(&self) -> vec2;

    /// This object moved to `location`, all else kept.
    spec fn with_location(&self, location: vec2) -> Self;

    /// This object given `velocity`, all else kept.
    spec fn with_velocity(&self, velocity: vec2) -> Self;

    /// Whether the object may be given `velocity`: an object that cannot move
    /// takes only the zero velocity.
    spec fn accepts_velocity(&self, velocity: vec2) -> bool;

    fn location(&self) -> (r: vec2)
        ensures
            r == self.spec_location(),
    ;

    fn velocity(&self) -> (r: vec2)
        ensures
            r == self.spec_velocity(),
    ;

    fn set_location(&mut self, location: vec2)
        ensures
            *final(self) == old(self).with_location(location),
    ;

    fn set_velocity(&mut self, velocity: vec2)
        requires
            old(self).accepts_velocity(velocity),
        ensures
            *final(self) == old(self).with_velocity(velocity),
    ;
}

} // verus!
