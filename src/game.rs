use vstd::prelude::*;

use crate::ball::{Ball, BallView};
use crate::block::{Block, BlockView};
use crate::math::{self, lemma_step_bounds, within, COORD_LIMIT, DT_LIMIT, SPEED_LIMIT, UNIT};
use crate::object::GameObject;
use crate::paddle::{Paddle, PaddleView};
use crate::physics::{
    ball_after_collisions, bounced_off_paddle, deflect, off_left_wall, off_right_wall,
    off_top_wall, paddle_clamped, slot_after, slots_after,
};
use crate::shape::{Circle, Rectangle};

verus! {

/// A block slot as mathematical integers.
pub open spec fn slot_view(slot: Option<Block>) -> Option<BlockView> {
    match slot {
        Some(b) => Some(b@),
        None => None,
    }
}

/// Block slots as mathematical integers.
pub open spec fn slots_view(slots: Seq<Option<Block>>) -> Seq<Option<BlockView>> {
    slots.map_values(|s: Option<Block>| slot_view(s))
}

/// Why a world could not be built: a required part was never given.
#[derive(Debug, Clone, Copy, PartialEq, Eq, Structural)]
pub enum BuildError {
    MissingDt,
    MissingBall,
    MissingPaddle,
}

impl BuildError {
    /// A sentence that names the missing part.
    pub fn description(&self) -> &'static str {
        match self {
            BuildError::MissingDt => "the time step was never given: call BreakoutBuilder::dt",
            BuildError::MissingBall => "the ball was never given: call BreakoutBuilder::ball",
            BuildError::MissingPaddle => "the paddle was never given: call BreakoutBuilder::paddle",
        }
    }
}

/// Gathers the parts of a world: the time step, the ball and the paddle are
/// required, blocks are optional.
pub struct BreakoutBuilder {
    pub(crate) dt: Option<i64>,
    pub(crate) ball: Option<Ball>,
    pub(crate) paddle: Option<Paddle>,
    pub(crate) blocks: Vec<Option<Block>>,
}

/// What a builder holds, as mathematical integers.
pub struct BuilderView {
    pub dt: Option<int>,
    pub ball: Option<BallView>,
    pub paddle: Option<PaddleView>,
    pub blocks: Seq<Option<BlockView>>,
}

impl View for BreakoutBuilder {
    type V = BuilderView;

    open(crate) spec fn view(&self) -> BuilderView {
        BuilderView {
            dt: match self.dt {
                Some(d) => Some(d as int),
                None => None,
            },
            ball: match self.ball {
                Some(b) => Some(b@),
                None => None,
            },
            paddle: match self.paddle {
                Some(p) => Some(p@),
                None => None,
            },
            blocks: slots_view(self.blocks@),
        }
    }
}

impl BreakoutBuilder {
    /// A builder that holds nothing yet.
    pub fn new() -> (r: Self)
        ensures
            r@ == (BuilderView { dt: None, ball: None, paddle: None, blocks: Seq::empty() }),
    {
        let r = Self { dt: None, ball: None, paddle: None, blocks: Vec::new() };
        assert(r@.blocks =~= Seq::empty());
        r
    }

    /// Sets the time step, in microseconds; it is positive.
    pub fn dt(self, dt: i64) -> (r: Self)
        requires
            dt > 0,
        ensures
            r@ == (BuilderView { dt: Some(dt as int), ..self@ }),
    {
        let mut this = self;
        this.dt = Some(dt);
        this
    }

    pub fn ball(self, ball: Ball) -> (r: Self)
        ensures
            r@ == (BuilderView { ball: Some(ball@), ..self@ }),
    {
        let mut this = self;
        this.ball = Some(ball);
        this
    }

    pub fn paddle(self, paddle: Paddle) -> (r: Self)
        ensures
            r@ == (BuilderView { paddle: Some(paddle@), ..self@ }),
    {
        let mut this = self;
        this.paddle = Some(paddle);
        this
    }

    /// Adds a block after those already added.
    pub fn add_block(self, block: Block) -> (r: Self)
        ensures
            r@ == (BuilderView { blocks: self@.blocks.push(Some(block@)), ..self@ }),
    {
        let mut this = self;
        let ghost before = slots_view(this.blocks@);
        this.blocks.push(Some(block));
        assert(slots_view(this.blocks@) =~= before.push(Some(block@)));
        this
    }

    /// Adds `blocks`, in their order, after those already added.
    pub fn add_blocks(self, blocks: Vec<Block>) -> (r: Self)
        ensures
            r@ == (BuilderView {
                blocks: self@.blocks + blocks@.map_values(|b: Block| Some(b@)),
                ..self@
            }),
    {
        let mut this = self;
        let ghost start = slots_view(this.blocks@);
        let ghost given = this@;
        let mut i: usize = 0;
        while i < blocks.len()
            invariant
                0 <= i <= blocks@.len(),
                this@.dt == given.dt,
                this@.ball == given.ball,
                this@.paddle == given.paddle,
                slots_view(this.blocks@) =~= start + blocks@.subrange(0, i as int).map_values(
                    |b: Block| Some(b@),
                ),
            decreases blocks.len() - i,
        {
            let ghost prev = this.blocks@;
            this.blocks.push(Some(blocks[i]));
            assert(slots_view(this.blocks@) =~= slots_view(prev).push(Some(blocks@[i as int]@)));
            assert(blocks@.subrange(0, i + 1).map_values(|b: Block| Some(b@)) =~= blocks@.subrange(
                0,
                i as int,
            ).map_values(|b: Block| Some(b@)).push(Some(blocks@[i as int]@)));
            i += 1;
        }
        assert(blocks@.subrange(0, blocks@.len() as int) =~= blocks@);
        this
    }

    /// The world made of the parts given; it fails, naming the first part
    /// missing of the time step, the ball and the paddle, when one was never
    /// given.
    pub fn build(self) -> (r: Result<Breakout, BuildError>)
        ensures
            self@.dt is None ==> r == Err::<Breakout, BuildError>(BuildError::MissingDt),
            self@.dt is Some && self@.ball is None ==> r == Err::<Breakout, BuildError>(
                BuildError::MissingBall,
            ),
            self@.dt is Some && self@.ball is Some && self@.paddle is None ==> r == Err::<
                Breakout,
                BuildError,
            >(BuildError::MissingPaddle),
            self@.dt is Some && self@.ball is Some && self@.paddle is Some ==> (r matches Ok(w)
                && w@ == (BreakoutView {
                dt: self@.dt->Some_0,
                ball: self@.ball->Some_0,
                paddle: self@.paddle->Some_0,
                blocks: self@.blocks,
            })),
            r matches Ok(w) ==> w@.ball.radius > 0 && w@.paddle.width > 0 && w@.paddle.height >= 0,
    {
        let BreakoutBuilder { dt, ball, paddle, blocks } = self;
        let dt = match dt {
            Some(d) => d,
            None => return Err(BuildError::MissingDt),
        };
        let ball = match ball {
            Some(b) => b,
            None => return Err(BuildError::MissingBall),
        };
        let paddle = match paddle {
            Some(p) => p,
            None => return Err(BuildError::MissingPaddle),
        };
        proof {
            use_type_invariant(&ball);
            use_type_invariant(&paddle);
        }
        Ok(Breakout { dt, ball, paddle, blocks })
    }
}

/// A game in progress: the time step, the ball, the paddle and the block
/// slots, in the order in which the blocks were added; a slot is emptied when
/// its block is destroyed.
#[derive(Debug, Clone)]
pub struct Breakout {
    /// The time step, in microseconds: each tick advances the game by exactly
    /// this much.
    pub(crate) dt: i64,
    pub(crate) ball: Ball,
    /// The user's paddle.
    pub(crate) paddle: Paddle,
    /// The block slots, from the closest to the furthest.
    pub(crate) blocks: Vec<Option<Block>>,
}

/// A world as mathematical integers.
pub struct BreakoutView {
    pub dt: int,
    pub ball: BallView,
    pub paddle: PaddleView,
    pub blocks: Seq<Option<BlockView>>,
}

/// A present block lies within the bounds that a tick starts from.
pub open spec fn slot_in_range(slot: Option<BlockView>) -> bool {
    match slot {
        Some(k) => k.width <= COORD_LIMIT && k.height <= COORD_LIMIT && within(k.x, COORD_LIMIT as int)
            && within(k.y, COORD_LIMIT as int),
        None => true,
    }
}

impl BreakoutView {
    /// The time step, the ball's radius and the paddle's width are positive,
    /// and the paddle's height is not negative.
    pub open spec fn wf(self) -> bool {
        &&& self.dt > 0
        &&& self.ball.radius > 0
        &&& self.paddle.width > 0
        &&& self.paddle.height >= 0
    }

    /// Every quantity lies within the machine bounds that a tick starts from:
    /// the time step within `DT_LIMIT`, coordinates and lengths within
    /// `COORD_LIMIT`, velocity components within `SPEED_LIMIT`.
    pub open spec fn in_range(self) -> bool {
        &&& self.dt <= DT_LIMIT
        &&& self.ball.radius <= COORD_LIMIT
        &&& within(self.ball.x, COORD_LIMIT as int)
        &&& within(self.ball.y, COORD_LIMIT as int)
        &&& within(self.ball.vx, SPEED_LIMIT as int)
        &&& within(self.ball.vy, SPEED_LIMIT as int)
        &&& self.paddle.width <= COORD_LIMIT
        &&& self.paddle.height <= COORD_LIMIT
        &&& within(self.paddle.x, COORD_LIMIT as int)
        &&& within(self.paddle.y, COORD_LIMIT as int)
        &&& within(self.paddle.vx, SPEED_LIMIT as int)
        &&& within(self.paddle.vy, SPEED_LIMIT as int)
        &&& forall|i: int| 0 <= i < self.blocks.len() ==> slot_in_range(#[trigger] self.blocks[i])
    }
}

/// The world one time step later: the ball and the paddle move at their
/// velocities, then the ball is resolved against the paddle and the walls, the
/// paddle against the walls, and the blocks against the ball.
pub open spec fn tick_model(w: BreakoutView) -> BreakoutView {
    let ball = ball_after_collisions(w.ball.advanced(w.dt), w.paddle.advanced(w.dt));
    BreakoutView {
        dt: w.dt,
        ball,
        paddle: paddle_clamped(w.paddle.advanced(w.dt)),
        blocks: slots_after(ball, w.blocks),
    }
}

impl View for Breakout {
    type V = BreakoutView;

    open(crate) spec fn view(&self) -> BreakoutView {
        BreakoutView {
            dt: self.dt as int,
            ball: self.ball@,
            paddle: self.paddle@,
            blocks: slots_view(self.blocks@),
        }
    }
}

/// The ball and the paddle after they have moved, and before their collisions
/// are resolved, lie within the bounds that resolving them needs.
pub open spec fn moved_in_range(b: BallView, p: PaddleView) -> bool {
    &&& 0 < b.radius <= COORD_LIMIT
    &&& within(b.x, 2 * COORD_LIMIT)
    &&& within(b.y, 2 * COORD_LIMIT)
    &&& within(b.vx, SPEED_LIMIT as int)
    &&& within(b.vy, SPEED_LIMIT as int)
    &&& 0 < p.width <= COORD_LIMIT
    &&& 0 <= p.height <= COORD_LIMIT
    &&& within(p.x, 2 * COORD_LIMIT)
    &&& within(p.y, 2 * COORD_LIMIT)
}

impl Breakout {
    /// The first level: a ball falling from above the middle, a paddle near
    /// the bottom and a row of four blocks.
    pub fn level_1(dt: i64) -> (r: Self)
        requires
            dt > 0,
        ensures
            r@.dt == dt,
            r@.ball == (BallView { radius: 15_000, x: 500_000, y: 700_000, vx: 0, vy: -500_000, spin: 0 }),
            r@.paddle == (PaddleView {
                width: 150_000,
                height: 20_000,
                x: 425_000,
                y: 65_000,
                vx: 0,
                vy: 0,
            }),
            r@.blocks.len() == 4,
            forall|i: int|
                0 <= i < 4 ==> #[trigger] r@.blocks[i] == Some(
                    BlockView { width: 100_000, height: 50_000, x: 200_000 * (i + 1) - 50_000, y: 725_000 },
                ),
            r@.wf(),
    {
        let mut blocks: Vec<Block> = Vec::new();
        let mut i: i64 = 0;
        while i < 4
            invariant
                0 <= i <= 4,
                blocks@.len() == i,
                forall|j: int|
                    0 <= j < i ==> #[trigger] blocks@[j]@ == (BlockView {
                        width: 100_000,
                        height: 50_000,
                        x: 200_000 * (j + 1) - 50_000,
                        y: 725_000,
                    }),
            decreases 4 - i,
        {
            blocks.push(Block::new([100_000, 50_000], [200_000 * (i + 1) - 50_000, 725_000]));
            i += 1;
        }
        let built = BreakoutBuilder::new().dt(dt).ball(
            Ball::new(15_000, [500_000, 700_000], [0, -500_000]),
        ).paddle(Paddle::new([150_000, 20_000], [425_000, 65_000])).add_blocks(blocks).build();
        built.unwrap()
    }

    /// The time step, in microseconds.
    pub fn dt(&self) -> (r: i64)
        ensures
            r == self@.dt,
    {
        self.dt
    }

    pub fn paddle(&self) -> (r: &Paddle)
        ensures
            r@ == self@.paddle,
    {
        &self.paddle
    }

    /// The paddle, to be changed in place; nothing else changes.
    pub fn paddle_mut(&mut self) -> (r: &mut Paddle)
        ensures
            r@ == old(self)@.paddle,
            final(self)@ == (BreakoutView { paddle: final(r)@, ..old(self)@ }),
    {
        &mut self.paddle
    }

    pub fn ball(&self) -> (r: &Ball)
        ensures
            r@ == self@.ball,
    {
        &self.ball
    }

    /// The block slots, in the order in which the blocks were added; a
    /// destroyed block leaves its slot empty.
    pub fn blocks(&self) -> (r: &[Option<Block>])
        ensures
            slots_view(r@) == self@.blocks,
    {
        self.blocks.as_slice()
    }

    /// Whether `tick` may be called: the world is valid and lies within the
    /// machine bounds.
    pub fn can_tick(&self) -> (r: bool)
        ensures
            r == (self@.wf() && self@.in_range()),
    {
        proof {
            use_type_invariant(&self.ball);
            use_type_invariant(&self.paddle);
        }
        let b = &self.ball;
        let p = &self.paddle;
        if !(self.dt > 0 && self.dt <= DT_LIMIT && b.radius <= COORD_LIMIT
            && math::is_within(b.midpoint[0], COORD_LIMIT) && math::is_within(b.midpoint[1], COORD_LIMIT)
            && math::is_within(b.velocity[0], SPEED_LIMIT) && math::is_within(b.velocity[1], SPEED_LIMIT)
            && p.dimensions[0] <= COORD_LIMIT && p.dimensions[1] <= COORD_LIMIT
            && math::is_within(p.origin[0], COORD_LIMIT) && math::is_within(p.origin[1], COORD_LIMIT)
            && math::is_within(p.velocity[0], SPEED_LIMIT) && math::is_within(p.velocity[1], SPEED_LIMIT)) {
            return false;
        }
        let mut i: usize = 0;
        while i < self.blocks.len()
            invariant
                0 <= i <= self.blocks@.len(),
                forall|j: int| 0 <= j < i ==> slot_in_range(#[trigger] self@.blocks[j]),
            decreases self.blocks.len() - i,
        {
            match &self.blocks[i] {
                Some(k) => {
                    if !(k.dimensions[0] <= COORD_LIMIT && k.dimensions[1] <= COORD_LIMIT
                        && math::is_within(k.origin[0], COORD_LIMIT) && math::is_within(k.origin[1], COORD_LIMIT)) {
                        assert(!slot_in_range(self@.blocks[i as int]));
                        return false;
                    }
                },
                None => {},
            }
            i += 1;
        }
        true
    }

    /// Moves the ball and the paddle at their velocities for one time step.
    fn tick_positions(&mut self)
        requires
            old(self)@.wf(),
            old(self)@.in_range(),
        ensures
            final(self)@ == (BreakoutView {
                ball: old(self)@.ball.advanced(old(self)@.dt),
                paddle: old(self)@.paddle.advanced(old(self)@.dt),
                ..old(self)@
            }),
    {
        proof {
            let w = self@;
            lemma_step_bounds(w.ball.vx, w.dt);
            lemma_step_bounds(w.ball.vy, w.dt);
            lemma_step_bounds(w.paddle.vx, w.dt);
            lemma_step_bounds(w.paddle.vy, w.dt);
        }
        math::tick_position(&mut self.ball, self.dt);
        math::tick_position(&mut self.paddle, self.dt);
    }

    /// Resolves the ball against the paddle, then against the top, left and
    /// right walls.
    fn resolve_ball_collisions(&mut self)
        requires
            moved_in_range(old(self)@.ball, old(self)@.paddle),
        ensures
            final(self)@ == (BreakoutView {
                ball: ball_after_collisions(old(self)@.ball, old(self)@.paddle),
                ..old(self)@
            }),
            within(final(self)@.ball.x, 16 * COORD_LIMIT),
            within(final(self)@.ball.y, 16 * COORD_LIMIT),
    {
        let ghost b0 = self@.ball;
        let ghost p0 = self@.paddle;
        let loc = self.ball.location();
        let ball_x = loc[0];
        let ball_y = loc[1];
        let ball_r = self.ball.radius();

        // Broad phase, then the narrow one: the center over the paddle, and the
        // vertical extents meeting.
        if math::objects_are_close(&self.ball, &self.paddle) {
            let paddle_left = self.paddle.left();
            let paddle_right = self.paddle.right();
            let paddle_bottom = self.paddle.bottom();
            let paddle_top = self.paddle.top();
            let paddle_len = self.paddle.dimensions()[0];
            if ball_x >= paddle_left && ball_x <= paddle_right {
                if ball_y - ball_r <= paddle_top && ball_y + ball_r >= paddle_bottom {
                    // Lift the ball above the paddle by as much as it sank into it.
                    let dip = paddle_top - (ball_y - ball_r);
                    self.ball.set_location([ball_x, paddle_top + dip + ball_r]);
                    let offset = 2 * ball_x - (paddle_left + paddle_right);
                    let velocity = deflect(self.ball.velocity(), offset, paddle_len);
                    self.ball.set_velocity(velocity);
                    assert(self@.ball == bounced_off_paddle(b0, p0));
                }
            }
        }
        let ghost b1 = self@.ball;
        assert(within(b1.vx, 2 * SPEED_LIMIT) && within(b1.vy, 2 * SPEED_LIMIT));
        assert(within(b1.x, 2 * COORD_LIMIT) && within(b1.y, 12 * COORD_LIMIT));

        // Top wall.
        let loc = self.ball.location();
        let ball_x = loc[0];
        let ball_y = loc[1];
        if ball_y + ball_r >= UNIT {
            let passed = ball_y + ball_r - UNIT;
            self.ball.set_location([ball_x, UNIT - passed - ball_r]);
            let v = self.ball.velocity();
            self.ball.set_velocity([v[0], -v[1]]);
        }
        assert(self@.ball == off_top_wall(b1));
        assert(within(self@.ball.y, 16 * COORD_LIMIT));

        // Left wall.
        let ghost b2 = self@.ball;
        let loc = self.ball.location();
        let ball_x = loc[0];
        let ball_y = loc[1];
        if ball_x - ball_r <= 0 {
            let passed = ball_r - ball_x;
            self.ball.set_location([ball_r + passed, ball_y]);
            let v = self.ball.velocity();
            self.ball.set_velocity([-v[0], v[1]]);
        }
        assert(self@.ball == off_left_wall(b2));
        assert(within(self@.ball.x, 4 * COORD_LIMIT));

        // Right wall.
        let ghost b3 = self@.ball;
        let loc = self.ball.location();
        let ball_x = loc[0];
        let ball_y = loc[1];
        if ball_x + ball_r >= UNIT {
            let passed = ball_x + ball_r - UNIT;
            self.ball.set_location([UNIT - passed - ball_r, ball_y]);
            let v = self.ball.velocity();
            self.ball.set_velocity([-v[0], v[1]]);
        }
        assert(self@.ball == off_right_wall(b3));
    }

    /// Holds the paddle inside the play-field: an edge that reaches a side wall
    /// puts the paddle against that wall and stops it.
    fn resolve_paddle_collisions(&mut self)
        requires
            0 < old(self)@.paddle.width <= COORD_LIMIT,
            0 <= old(self)@.paddle.height <= COORD_LIMIT,
            within(old(self)@.paddle.x, 2 * COORD_LIMIT),
            within(old(self)@.paddle.y, 2 * COORD_LIMIT),
        ensures
            final(self)@ == (BreakoutView { paddle: paddle_clamped(old(self)@.paddle), ..old(self)@ }),
    {
        let paddle_left = self.paddle.left();
        let paddle_right = self.paddle.right();
        let paddle_bottom = self.paddle.bottom();
        let paddle_len = self.paddle.dimensions()[0];

        if paddle_right >= UNIT {
            self.paddle.set_location([UNIT - paddle_len, paddle_bottom]);
            self.paddle.set_velocity([0, 0]);
        }
        if paddle_left <= 0 {
            self.paddle.set_location([0, paddle_bottom]);
            self.paddle.set_velocity([0, 0]);
        }
    }

    /// Destroys every present block whose box meets the ball's.
    fn resolve_ball_block_collisions(&mut self)
        requires
            0 < old(self)@.ball.radius <= COORD_LIMIT,
            within(old(self)@.ball.x, 16 * COORD_LIMIT),
            within(old(self)@.ball.y, 16 * COORD_LIMIT),
            forall|i: int|
                0 <= i < old(self)@.blocks.len() ==> slot_in_range(#[trigger] old(self)@.blocks[i]),
        ensures
            final(self)@ == (BreakoutView {
                blocks: slots_after(old(self)@.ball, old(self)@.blocks),
                ..old(self)@
            }),
    {
        let ghost ball = self@.ball;
        let ghost slots = self@.blocks;
        let mut i: usize = 0;
        while i < self.blocks.len()
            invariant
                0 <= i <= self.blocks@.len(),
                self@.ball == ball,
                self.ball == old(self).ball,
                self.dt == old(self).dt,
                self.paddle == old(self).paddle,
                self@.blocks.len() == slots.len(),
                0 < ball.radius <= COORD_LIMIT,
                within(ball.x, 16 * COORD_LIMIT),
                within(ball.y, 16 * COORD_LIMIT),
                forall|j: int| 0 <= j < slots.len() ==> slot_in_range(#[trigger] slots[j]),
                forall|j: int|
                    0 <= j < i ==> #[trigger] self@.blocks[j] == slot_after(ball, slots[j]),
                forall|j: int| i <= j < slots.len() ==> #[trigger] self@.blocks[j] == slots[j],
            decreases self.blocks.len() - i,
        {
            let hit = match &self.blocks[i] {
                Some(block) => {
                    proof {
                        use_type_invariant(block);
                        assert(self@.blocks[i as int] == slots[i as int]);
                        assert(slot_in_range(slots[i as int]));
                    }
                    math::objects_are_close(&self.ball, block)
                },
                None => false,
            };
            let ghost before = self@.blocks;
            if hit {
                self.blocks.set(i, None);
                assert(self@.blocks =~= before.update(i as int, None));
            }
            assert(self@.blocks[i as int] == slot_after(ball, slots[i as int]));
            i += 1;
        }
        assert(self@.blocks =~= slots_after(ball, slots));
    }

    /// Resolves, in order, the ball against the paddle and the walls, the
    /// paddle against the walls, and the blocks against the ball.
    fn resolve_collisions(&mut self)
        requires
            moved_in_range(old(self)@.ball, old(self)@.paddle),
            forall|i: int|
                0 <= i < old(self)@.blocks.len() ==> slot_in_range(#[trigger] old(self)@.blocks[i]),
        ensures
            final(self)@ == (BreakoutView {
                ball: ball_after_collisions(old(self)@.ball, old(self)@.paddle),
                paddle: paddle_clamped(old(self)@.paddle),
                blocks: slots_after(
                    ball_after_collisions(old(self)@.ball, old(self)@.paddle),
                    old(self)@.blocks,
                ),
                ..old(self)@
            }),
    {
        self.resolve_ball_collisions();
        self.resolve_paddle_collisions();
        self.resolve_ball_block_collisions();
    }

    /// Advances the game by one time step: the ball and the paddle move at
    /// their velocities, then the collisions are resolved.
    pub fn tick(&mut self)
        requires
            old(self)@.wf(),
            old(self)@.in_range(),
        ensures
            final(self)@ == tick_model(old(self)@),
            final(self)@.wf(),
    {
        self.tick_positions();
        proof {
            let w = old(self)@;
            lemma_step_bounds(w.ball.vx, w.dt);
            lemma_step_bounds(w.ball.vy, w.dt);
            lemma_step_bounds(w.paddle.vx, w.dt);
            lemma_step_bounds(w.paddle.vy, w.dt);
        }
        self.resolve_collisions();
    }
}

} // verus!