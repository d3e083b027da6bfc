use vstd::prelude::*;

use crate::ball::BallView;
use crate::block::BlockView;
use crate::game::{tick_model, BreakoutView};
use crate::math::{is_sqrt_floor, lemma_sqrt_floor, lemma_sqrt_floor_unique, step, trunc_div, UNIT};
use crate::paddle::PaddleView;
use crate::physics::{
    boosted_speed, bounced_off_paddle, deflected_vx, deflected_vy, lemma_deflected_vx_bounded,
    paddle_clamped, slot_after, slots_after, strike_offset, strikes_paddle,
};

verus! {

/// A ball that moves straight down at speed `s` and strikes a resting paddle
/// during a tick leaves it with its speed raised to `s * 21 / 20` (rounded
/// down): its horizontal speed is fixed by where it struck the paddle alone,
/// and its vertical velocity points up and makes up the rest of that speed.
/// A ball that strikes the paddle's middle goes straight up at
/// `s * 21 / 20`. The ball must land clear of the top wall, which would turn
/// it down again.
pub proof fn lemma_momentum_reflection(w: BreakoutView, s: int)
    requires
        w.wf(),
        w.in_range(),
        s > 0,
        w.ball.vx == 0,
        w.ball.vy == -s,
        w.paddle.vx == 0,
        w.paddle.vy == 0,
        strikes_paddle(w.ball.advanced(w.dt), w.paddle),
        bounced_off_paddle(w.ball.advanced(w.dt), w.paddle).y + w.ball.radius < UNIT,
    ensures
        ({
            let speed = s * 21 / 20;
            let lateral = deflected_vx(
                strike_offset(w.ball.advanced(w.dt), w.paddle),
                w.paddle.width,
                speed,
            );
            let after = tick_model(w).ball;
            &&& after.vx == lateral || after.vx == -lateral
            &&& after.vy == deflected_vy(lateral, speed)
            &&& after.vy >= 0
            &&& strike_offset(w.ball.advanced(w.dt), w.paddle) == 0 ==> after.vx == 0 && after.vy
                == speed
        }),
{
    let speed = s * 21 / 20;
    assert(w.paddle.advanced(w.dt) == w.paddle) by {
        assert(step(0, w.dt) == 0);
    }
    assert(is_sqrt_floor(0 * 0 + (-s) * (-s), s)) by (nonlinear_arith)
        requires
            s > 0,
    ;
    lemma_sqrt_floor_unique(0 * 0 + (-s) * (-s), s);
    assert(boosted_speed(0, -s) == speed);
    let lateral = deflected_vx(strike_offset(w.ball.advanced(w.dt), w.paddle), w.paddle.width, speed);
    let b = w.ball.advanced(w.dt);
    lemma_deflected_vx_bounded(strike_offset(b, w.paddle), w.paddle.width, speed);
    assert(lateral * lateral <= speed * speed) by (nonlinear_arith)
        requires
            -4 * speed <= 5 * lateral <= 4 * speed,
            speed >= 0,
    ;
    lemma_sqrt_floor(speed * speed - lateral * lateral);
    if strike_offset(w.ball.advanced(w.dt), w.paddle) == 0 {
        let o = strike_offset(b, w.paddle);
        assert(4 * o * speed == 0) by (nonlinear_arith)
            requires
                o == 0,
        ;
        assert(trunc_div(0, 5 * w.paddle.width) == 0);
        assert(lateral == 0);
        assert(is_sqrt_floor(speed * speed - 0 * 0, speed)) by (nonlinear_arith)
            requires
                speed >= 0,
        ;
        lemma_sqrt_floor_unique(speed * speed - 0 * 0, speed);
    }
}

/// After every tick the ball's center is at least its radius below the top
/// wall.
pub proof fn lemma_ball_below_top_wall(w: BreakoutView)
    ensures
        tick_model(w).ball.y <= UNIT - tick_model(w).ball.radius,
{
}

/// A ball whose center is at least its radius away from both side walls stays
/// so after a tick, when the tick moves it sideways by no more than the room
/// that the walls leave it.
pub proof fn lemma_ball_between_side_walls(w: BreakoutView)
    requires
        w.ball.radius <= w.ball.x <= UNIT - w.ball.radius,
        -(UNIT - 2 * w.ball.radius) <= step(w.ball.vx, w.dt) <= UNIT - 2 * w.ball.radius,
    ensures
        tick_model(w).ball.radius <= tick_model(w).ball.x <= UNIT - tick_model(w).ball.radius,
{
}

/// A paddle no wider than the play-field lies inside it after every tick, and
/// when a tick has to put it against a wall, it stops: its velocity is zero.
pub proof fn lemma_paddle_held_inside(w: BreakoutView)
    requires
        w.wf(),
        w.paddle.width <= UNIT,
    ensures
        0 <= tick_model(w).paddle.x <= UNIT - w.paddle.width,
        tick_model(w).paddle.width == w.paddle.width,
        ({
            let moved = w.paddle.advanced(w.dt);
            (moved.x <= 0 || moved.x + moved.width >= UNIT) ==> tick_model(w).paddle.vx == 0
                && tick_model(w).paddle.vy == 0
        }),
{
}

/// Holding a paddle no wider than the play-field inside it a second time
/// changes nothing.
pub proof fn lemma_paddle_clamp_idempotent(p: PaddleView)
    requires
        0 < p.width <= UNIT,
    ensures
        paddle_clamped(paddle_clamped(p)) == paddle_clamped(p),
{
}

/// The number of present blocks.
pub open spec fn present_count(slots: Seq<Option<BlockView>>) -> nat
    decreases slots.len(),
{
    if slots.len() == 0 {
        0
    } else {
        present_count(slots.drop_last()) + if slots.last() is Some {
            1nat
        } else {
            0nat
        }
    }
}

/// Slots of which every present one was present before hold no more blocks.
proof fn lemma_present_count_monotonic(before: Seq<Option<BlockView>>, after: Seq<Option<BlockView>>)
    requires
        after.len() == before.len(),
        forall|i: int| 0 <= i < after.len() && (#[trigger] after[i]) is Some ==> before[i] is Some,
    ensures
        present_count(after) <= present_count(before),
    decreases before.len(),
{
    if before.len() > 0 {
        let a = after.drop_last();
        let b = before.drop_last();
        assert forall|i: int| 0 <= i < a.len() && (#[trigger] a[i]) is Some implies b[i] is Some by {
            assert(a[i] == after[i]);
        }
        lemma_present_count_monotonic(b, a);
    }
}

/// Blocks only disappear: a tick keeps the slots in their order, a present
/// block either stays as it was or is destroyed, an empty slot stays empty,
/// and the number of present blocks does not grow.
pub proof fn lemma_blocks_only_disappear(w: BreakoutView)
    ensures
        tick_model(w).blocks.len() == w.blocks.len(),
        forall|i: int|
            0 <= i < w.blocks.len() && w.blocks[i] is None ==> (#[trigger] tick_model(w).blocks[i])
                is None,
        forall|i: int|
            0 <= i < w.blocks.len() && (#[trigger] tick_model(w).blocks[i]) is Some
                ==> tick_model(w).blocks[i] == w.blocks[i],
        present_count(tick_model(w).blocks) <= present_count(w.blocks),
{
    let after = tick_model(w).blocks;
    assert forall|i: int| 0 <= i < after.len() && (#[trigger] after[i]) is Some implies w.blocks[i] is Some by {
        assert(after[i] == slot_after(tick_model(w).ball, w.blocks[i]));
    }
    lemma_present_count_monotonic(w.blocks, after);
}

/// Destroying blocks twice with the same ball is the same as doing it once.
pub proof fn lemma_block_destruction_idempotent(b: BallView, slots: Seq<Option<BlockView>>)
    ensures
        slots_after(b, slots_after(b, slots)) == slots_after(b, slots),
{
    assert(slots_after(b, slots_after(b, slots)) =~= slots_after(b, slots));
}

} // verus!
