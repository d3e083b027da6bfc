//! Simulation kernel of a breakout game: a ball, a paddle and blocks on the
//! unit play-field, advanced in fixed time steps with collisions resolved in a
//! fixed order.
//!
//! All quantities are fixed-point integers: lengths in millionths of the
//! play-field's side (`math::UNIT` is the whole side), velocities in those
//! units per second, and time in microseconds.
pub mod ball;
pub mod block;
pub mod events;
pub mod game;
pub mod laws;
pub mod math;
pub mod object;
pub mod paddle;
pub mod physics;
pub mod prelude;
pub mod shape;

pub use ball::Ball;
pub use block::Block;
pub use game::{BreakoutBuilder, Breakout, BuildError};
pub use math::{vec2, Vec2};
pub use object::GameObject;
pub use paddle::Paddle;
pub use shape::{Box, Circle, Rectangle, Shape};
