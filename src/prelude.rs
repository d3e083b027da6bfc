//! The items that most users of the library need.
pub use crate::{
    vec2, Ball, Block, Breakout, BreakoutBuilder, Circle, GameObject, Paddle, Rectangle, Shape,
    Vec2,
};
