use breakout_core::math::UNIT;
use breakout_core::{
    Ball, Block, Breakout, BreakoutBuilder, BuildError, Circle, GameObject, Paddle, Rectangle,
};

/// 1/120 of a second, in microseconds.
const DT: i64 = 8333;

fn game_with(ball: Ball, paddle: Paddle, blocks: Vec<Block>) -> Breakout {
    BreakoutBuilder::new()
        .dt(DT)
        .ball(ball)
        .paddle(paddle)
        .add_blocks(blocks)
        .build()
        .unwrap()
}

fn present(game: &Breakout) -> usize {
    game.blocks().iter().filter(|b| b.is_some()).count()
}

#[test]
fn reference_scenario_follows_the_tick_pipeline() {
    // Ball of radius 0.02 at (0.5, 0.24) falling at 0.1 per second onto a paddle
    // 0.1 by 0.04 whose bottom-left corner is (0.5, 0.2); 120 ticks of 1/120 s.
    // The ball's center lies over the paddle's left end, so the strike sends it
    // off to the left at four fifths of the raised speed.
    let mut game = game_with(
        Ball::new(20_000, [500_000, 240_000], [0, -100_000]),
        Paddle::new([100_000, 40_000], [500_000, 200_000]),
        vec![],
    );
    for _ in 0..120 {
        assert!(game.can_tick());
        game.tick();
    }
    assert_eq!(game.ball().location(), [416_819, 343_189]);
    assert_eq!(game.ball().velocity(), [-84_000, 63_000]);
}

#[test]
fn ball_falling_onto_the_middle_bounces_straight_up_faster() {
    let mut game = game_with(
        Ball::new(20_000, [550_000, 300_000], [0, -100_000]),
        Paddle::new([100_000, 40_000], [500_000, 200_000]),
        vec![],
    );
    for _ in 0..48 {
        game.tick();
        assert_eq!(game.ball().velocity(), [0, -100_000]);
    }
    game.tick();
    assert_eq!(game.ball().velocity(), [0, 105_000]);
    assert_eq!(game.ball().location(), [550_000, 260_817]);
    for _ in 49..120 {
        game.tick();
    }
    assert_eq!(game.ball().location(), [550_000, 322_871]);
}

#[test]
fn ball_reflects_off_the_top_wall() {
    let mut game = game_with(
        Ball::new(20_000, [500_000, 979_000], [0, 240_000]),
        Paddle::new([100_000, 40_000], [0, 0]),
        vec![],
    );
    game.tick();
    // Moved to 980_999, which is 999 past the wall; reflected to 979_001.
    assert_eq!(game.ball().location(), [500_000, 979_001]);
    assert_eq!(game.ball().velocity(), [0, -240_000]);
}

#[test]
fn ball_reflects_off_the_side_walls() {
    let mut left = game_with(
        Ball::new(20_000, [21_000, 500_000], [-240_000, 0]),
        Paddle::new([100_000, 40_000], [400_000, 0]),
        vec![],
    );
    left.tick();
    assert_eq!(left.ball().location(), [20_999, 500_000]);
    assert_eq!(left.ball().velocity(), [240_000, 0]);

    let mut right = game_with(
        Ball::new(20_000, [979_000, 500_000], [240_000, 0]),
        Paddle::new([100_000, 40_000], [400_000, 0]),
        vec![],
    );
    right.tick();
    assert_eq!(right.ball().location(), [979_001, 500_000]);
    assert_eq!(right.ball().velocity(), [-240_000, 0]);
}

#[test]
fn ball_stays_between_the_walls_over_many_ticks() {
    let mut game = game_with(
        Ball::new(15_000, [500_000, 700_000], [730_000, 410_000]),
        Paddle::new([150_000, 20_000], [425_000, 65_000]),
        vec![],
    );
    for _ in 0..2000 {
        game.tick();
        let [x, y] = game.ball().location();
        assert!(15_000 <= x && x <= UNIT - 15_000);
        assert!(y <= UNIT - 15_000);
    }
}

#[test]
fn paddle_stops_against_the_walls() {
    let mut game = game_with(
        Ball::new(15_000, [500_000, 700_000], [0, 0]),
        Paddle::new([150_000, 20_000], [845_000, 65_000]),
        vec![],
    );
    game.paddle_mut().set_velocity([700_000, 0]);
    game.tick();
    assert_eq!(game.paddle().location(), [850_000, 65_000]);
    assert_eq!(game.paddle().velocity(), [0, 0]);
    assert_eq!(game.paddle().right(), UNIT);

    game.paddle_mut().set_velocity([-700_000, 0]);
    for _ in 0..400 {
        game.tick();
        let x = game.paddle().location()[0];
        assert!(0 <= x && x <= UNIT - 150_000);
    }
    assert_eq!(game.paddle().location(), [0, 65_000]);
    assert_eq!(game.paddle().velocity(), [0, 0]);
}

#[test]
fn blocks_touched_by_the_ball_are_destroyed_once() {
    let mut game = game_with(
        Ball::new(10_000, [500_000, 500_000], [0, 120_000]),
        Paddle::new([100_000, 20_000], [0, 0]),
        vec![
            Block::new([100_000, 50_000], [450_000, 510_000]),
            Block::new([100_000, 50_000], [100_000, 900_000]),
            Block::new([100_000, 50_000], [450_000, 520_000]),
        ],
    );
    assert_eq!(present(&game), 3);
    // After one tick the ball's top is at 510_999: only the first block is
    // reached.
    game.tick();
    assert!(game.blocks()[0].is_none());
    assert!(game.blocks()[1].is_some());
    assert!(game.blocks()[2].is_some());
    assert_eq!(present(&game), 2);
    // The ball passes through without bouncing and reaches the third block.
    assert_eq!(game.ball().velocity(), [0, 120_000]);
    let mut count = present(&game);
    for _ in 0..100 {
        game.tick();
        assert!(present(&game) <= count);
        assert!(game.blocks()[0].is_none());
        count = present(&game);
    }
    assert!(game.blocks()[2].is_none());
    assert_eq!(game.blocks()[1].unwrap().origin(), [100_000, 900_000]);
    assert_eq!(game.blocks().len(), 3);
}

#[test]
fn builder_needs_time_step_ball_and_paddle() {
    let ball = Ball::new(20_000, [500_000, 240_000], [0, -100_000]);
    let paddle = Paddle::new([100_000, 40_000], [500_000, 200_000]);

    let no_dt = BreakoutBuilder::new().ball(ball).paddle(paddle).build();
    assert_eq!(no_dt.unwrap_err(), BuildError::MissingDt);
    let no_ball = BreakoutBuilder::new().dt(DT).paddle(paddle).build();
    assert_eq!(no_ball.unwrap_err(), BuildError::MissingBall);
    let no_paddle = BreakoutBuilder::new().dt(DT).ball(ball).build();
    assert_eq!(no_paddle.unwrap_err(), BuildError::MissingPaddle);
    let nothing = BreakoutBuilder::new().build();
    assert_eq!(nothing.unwrap_err(), BuildError::MissingDt);
    assert!(!BuildError::MissingBall.description().is_empty());
}

#[test]
fn builder_keeps_what_it_was_given() {
    let ball = Ball::new(20_000, [500_000, 240_000], [0, -100_000]);
    let paddle = Paddle::new([100_000, 40_000], [500_000, 200_000]);
    let game = BreakoutBuilder::new()
        .dt(DT)
        .ball(ball)
        .paddle(paddle)
        .add_block(Block::new([1, 2], [3, 4]))
        .add_blocks(vec![Block::new([5, 6], [7, 8]), Block::new([9, 10], [11, 12])])
        .build()
        .unwrap();
    assert_eq!(game.dt(), DT);
    assert_eq!(game.ball().location(), [500_000, 240_000]);
    assert_eq!(game.ball().velocity(), [0, -100_000]);
    assert_eq!(game.ball().radius(), 20_000);
    assert_eq!(game.paddle().location(), [500_000, 200_000]);
    assert_eq!(game.paddle().dimensions(), [100_000, 40_000]);
    let origins: Vec<[i64; 2]> = game.blocks().iter().map(|b| b.unwrap().origin()).collect();
    assert_eq!(origins, vec![[3, 4], [7, 8], [11, 12]]);

    let empty = BreakoutBuilder::new().dt(DT).ball(ball).paddle(paddle).build().unwrap();
    assert!(empty.blocks().is_empty());
}

#[test]
fn first_level_layout() {
    let game = Breakout::level_1(1_041);
    assert_eq!(game.dt(), 1_041);
    assert_eq!(game.ball().radius(), 15_000);
    assert_eq!(game.ball().location(), [500_000, 700_000]);
    assert_eq!(game.ball().velocity(), [0, -500_000]);
    assert_eq!(game.paddle().dimensions(), [150_000, 20_000]);
    assert_eq!(game.paddle().location(), [425_000, 65_000]);
    let origins: Vec<[i64; 2]> = game.blocks().iter().map(|b| b.unwrap().origin()).collect();
    assert_eq!(origins, vec![[150_000, 725_000], [350_000, 725_000], [550_000, 725_000], [750_000, 725_000]]);
    assert!(game.can_tick());
}

#[test]
fn world_out_of_machine_bounds_cannot_tick() {
    let game = game_with(
        Ball::new(20_000, [500_000, -2_000_000_000_000], [0, -100_000]),
        Paddle::new([100_000, 40_000], [500_000, 200_000]),
        vec![],
    );
    assert!(!game.can_tick());
}
