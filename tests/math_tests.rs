use breakout_core::math::{isqrt, next_point, overlapping_boxes, overlapping_segments, UNIT};
use breakout_core::physics::deflect;
use breakout_core::{Ball, Block, Box, Circle, GameObject, Paddle, Rectangle, Shape, Vec2};

#[test]
fn basic_segments() {
    assert!(overlapping_segments([1 * UNIT, 3 * UNIT], [2 * UNIT, 4 * UNIT]));
    assert!(overlapping_segments([1 * UNIT, 3 * UNIT], [3 * UNIT, 5 * UNIT]));
    assert!(!overlapping_segments([1 * UNIT, 3 * UNIT], [4 * UNIT, 5 * UNIT]));
    assert!(overlapping_segments([1 * UNIT, 5 * UNIT], [2 * UNIT, 4 * UNIT]));
}

#[test]
pub fn basic_boxes() {
    assert!(overlapping_boxes(
        &Box { left: 1 * UNIT, right: 3 * UNIT, bottom: 1 * UNIT, top: 3 * UNIT },
        &Box { left: 2 * UNIT, right: 4 * UNIT, bottom: 2 * UNIT, top: 4 * UNIT },
    ));
}

#[test]
fn boxes_that_touch_at_a_corner_overlap() {
    let a = Box { left: 0, right: 10, bottom: 0, top: 10 };
    let b = Box { left: 10, right: 20, bottom: 10, top: 20 };
    assert!(overlapping_boxes(&a, &b));
}

#[test]
fn boxes_apart_on_one_axis_do_not_overlap() {
    let a = Box { left: 0, right: 10, bottom: 0, top: 10 };
    let b = Box { left: 5, right: 15, bottom: 11, top: 20 };
    assert!(!overlapping_boxes(&a, &b));
    let c = Box { left: 11, right: 15, bottom: 0, top: 20 };
    assert!(!overlapping_boxes(&a, &c));
}

#[test]
fn integer_square_root_rounds_down() {
    assert_eq!(isqrt(0), 0);
    assert_eq!(isqrt(1), 1);
    assert_eq!(isqrt(15), 3);
    assert_eq!(isqrt(16), 4);
    assert_eq!(isqrt(17), 4);
    assert_eq!(isqrt(10_000_000_000), 100_000);
    assert_eq!(isqrt(2_000_000_000_000_000_000_000_000), 1_414_213_562_373);
}

#[test]
fn euler_step_rounds_toward_zero() {
    // 1/120 s is 8333 microseconds: 0.1 units per second covers 833.3 micro-units.
    assert_eq!(next_point([500_000, 240_000], [0, -100_000], 8333), [500_000, 239_167]);
    assert_eq!(next_point([500_000, 240_000], [100_000, 0], 8333), [500_833, 240_000]);
    assert_eq!(next_point([0, 0], [-1, 1], 999_999), [0, 0]);
}

#[test]
fn deflection_in_the_middle_goes_straight_up_faster() {
    assert_eq!(deflect([0, -100_000], 0, 100_000), [0, 105_000]);
}

#[test]
fn deflection_at_the_ends_turns_four_fifths_of_the_speed() {
    assert_eq!(deflect([0, -100_000], 100_000, 100_000), [84_000, 63_000]);
    assert_eq!(deflect([0, -100_000], -100_000, 100_000), [-84_000, 63_000]);
}

#[test]
fn deflection_between_middle_and_end() {
    // Speed 50_000 raised to 52_500; a quarter of the width right of the middle.
    assert_eq!(deflect([30_000, -40_000], 50_000, 100_000), [21_000, 48_117]);
    assert_eq!(deflect([3, -4], 1, 7), [0, 5]);
}

#[test]
fn shapes_give_their_boxes() {
    let ball = Ball::new(20, [100, 200], [0, 0]);
    assert_eq!(ball.bounding_box(), Box { left: 80, right: 120, bottom: 180, top: 220 });
    assert_eq!(ball.radius(), 20);
    assert_eq!(Circle::origin(&ball), [100, 200]);

    let paddle = Paddle::new([30, 10], [5, 6]);
    assert_eq!(paddle.bounding_box(), Box { left: 5, right: 35, bottom: 6, top: 16 });
    assert_eq!(paddle.left(), 5);
    assert_eq!(paddle.right(), 35);
    assert_eq!(paddle.bottom(), 6);
    assert_eq!(paddle.top(), 16);

    let block = Block::new([4, 2], [-1, -3]);
    assert_eq!(block.bounding_box(), Box { left: -1, right: 3, bottom: -3, top: -1 });
    assert_eq!(block.dimensions(), [4, 2]);
}

#[test]
fn objects_move_and_keep_the_rest() {
    let mut ball = Ball::new(20, [100, 200], [3, 4]);
    ball.set_location([7, 8]);
    ball.set_velocity([-1, -2]);
    ball.set_spin(9);
    assert_eq!(ball.location(), [7, 8]);
    assert_eq!(ball.velocity(), [-1, -2]);
    assert_eq!(ball.spin(), 9);
    assert_eq!(ball.radius(), 20);
    assert_eq!(ball.location().x(), 7);
    assert_eq!(ball.location().y(), 8);

    let mut paddle = Paddle::new([30, 10], [5, 6]);
    assert_eq!(paddle.velocity(), [0, 0]);
    paddle.set_velocity([700_000, 0]);
    paddle.set_location([1, 2]);
    assert_eq!(paddle.velocity(), [700_000, 0]);
    assert_eq!(paddle.location(), [1, 2]);
    assert_eq!(paddle.dimensions(), [30, 10]);

    let mut block = Block::new([4, 2], [-1, -3]);
    assert_eq!(block.velocity(), [0, 0]);
    block.set_velocity([0, 0]);
    block.set_location([10, 11]);
    assert_eq!(block.location(), [10, 11]);
    assert_eq!(block.velocity(), [0, 0]);
}
