use vstd::prelude::*;

use crate::ball::BallView;
use crate::block::BlockView;
use crate::math::{isqrt, sqrt_floor, step, trunc_div, vec2, within, COORD_LIMIT, SPEED_LIMIT, UNIT};
use crate::paddle::PaddleView;
use crate::shape::bounds_meet;

verus! {

/// Speed of a ball moving at `(vx, vy)` once it has struck the paddle: a
/// twentieth faster, rounded down.
pub open spec fn boosted_speed(vx: int, vy: int) -> int {
    sqrt_floor(vx * vx + vy * vy) * 21 / 20
}

/// Horizontal velocity after a strike at `offset`, twice the signed distance
/// from the paddle's middle, on a paddle `width` wide: four fifths of `speed`
/// at either end, in proportion between them.
pub open spec fn deflected_vx(offset: int, width: int, speed: int) -> int {
    trunc_div(4 * offset * speed, 5 * width)
}

/// A strike within the paddle's width turns at most four fifths of the speed
/// into horizontal speed.
pub proof fn lemma_deflected_vx_bounded(offset: int, width: int, speed: int)
    requires
        -width <= offset <= width,
        width > 0,
        speed >= 0,
    ensures
        -4 * speed <= 5 * deflected_vx(offset, width, speed) <= 4 * speed,
{
    let a = 4 * offset * speed;
    let abs_a = if a >= 0 {
        a
    } else {
        -a
    };
    assert(abs_a <= 4 * width * speed) by (nonlinear_arith)
        requires
            -width <= offset <= width,
            speed >= 0,
            a == 4 * offset * speed,
            abs_a == if a >= 0 {
                a
            } else {
                -a
            },
    ;
    let q = abs_a / (5 * width);
    vstd::arithmetic::div_mod::lemma_fundamental_div_mod(abs_a, 5 * width);
    vstd::arithmetic::div_mod::lemma_mod_pos_bound(abs_a, 5 * width);
    assert(5 * q <= 4 * speed) by (nonlinear_arith)
        requires
            abs_a == (5 * width) * q + abs_a % (5 * width),
            0 <= abs_a % (5 * width),
            abs_a <= 4 * width * speed,
            width > 0,
    ;
}

/// Vertical velocity that, with `vx`, makes up `speed`, rounded down.
pub open spec fn deflected_vy(vx: int, speed: int) -> int {
    sqrt_floor(speed * speed - vx * vx)
}

/// Velocity that a ball moving at `velocity` leaves the paddle with, after
/// striking it at `offset` (twice the signed distance from the paddle's
/// middle) when the paddle is `width` wide.
pub fn deflect(velocity: vec2, offset: i64, width: i64) -> (r: vec2)
    requires
        within(velocity[0] as int, SPEED_LIMIT as int),
        within(velocity[1] as int, SPEED_LIMIT as int),
        0 < width <= COORD_LIMIT,
        -width <= offset <= width,
    ensures
        r[0] == deflected_vx(
            offset as int,
            width as int,
            boosted_speed(velocity[0] as int, velocity[1] as int),
        ),
        r[1] == deflected_vy(r[0] as int, boosted_speed(velocity[0] as int, velocity[1] as int)),
        within(r[0] as int, 2 * SPEED_LIMIT),
        within(r[1] as int, 2 * SPEED_LIMIT),
{
    let vx = velocity[0] as i128;
    let vy = velocity[1] as i128;
    assert(0 <= vx * vx <= 1_000_000_000_000 * 1_000_000_000_000) by (nonlinear_arith)
        requires
            -1_000_000_000_000 <= vx <= 1_000_000_000_000,
    ;
    assert(0 <= vy * vy <= 1_000_000_000_000 * 1_000_000_000_000) by (nonlinear_arith)
        requires
            -1_000_000_000_000 <= vy <= 1_000_000_000_000,
    ;
    let squares: i128 = vx * vx + vy * vy;
    let root = isqrt(squares as u128);
    assert(root < 1_500_000_000_000) by (nonlinear_arith)
        requires
            root * root <= squares,
            squares <= 2_000_000_000_000_000_000_000_000,
    ;
    let speed: i128 = (root as i128) * 21 / 20;
    assert(speed * 20 <= root * 21);
    assert(0 <= speed < 1_600_000_000_000);
    let o = offset as i128;
    let w = width as i128;
    assert(-(4 * w * speed) <= 4 * o * speed <= 4 * w * speed) by (nonlinear_arith)
        requires
            -w <= o <= w,
            0 <= speed,
    ;
    assert(4 * w * speed <= 6_400_000_000_000_000_000_000_000) by (nonlinear_arith)
        requires
            0 < w <= 1_000_000_000_000,
            0 <= speed < 1_600_000_000_000,
    ;
    let num: i128 = 4 * o * speed;
    let den: i128 = 5 * w;
    let abs_num: i128 = if num >= 0 {
        num
    } else {
        -num
    };
    let magnitude: i128 = abs_num / den;
    proof {
        vstd::arithmetic::div_mod::lemma_fundamental_div_mod(abs_num as int, den as int);
        vstd::arithmetic::div_mod::lemma_mod_pos_bound(abs_num as int, den as int);
        assert(magnitude * den <= abs_num) by (nonlinear_arith)
            requires
                abs_num == den * magnitude + abs_num % den,
                0 <= abs_num % den,
        ;
    }
    assert(magnitude <= speed) by (nonlinear_arith)
        requires
            magnitude * den <= 4 * w * speed,
            den == 5 * w,
            w > 0,
            speed >= 0,
    {
        if magnitude > speed {
            assert(magnitude * den >= (speed + 1) * (5 * w));
        }
    }
    let new_vx: i128 = if num >= 0 {
        magnitude
    } else {
        -magnitude
    };
    assert(0 <= new_vx * new_vx <= speed * speed) by (nonlinear_arith)
        requires
            -speed <= new_vx <= speed,
    ;
    assert(0 <= speed * speed <= 2_560_000_000_000_000_000_000_000) by (nonlinear_arith)
        requires
            0 <= speed < 1_600_000_000_000,
    ;
    let rest: i128 = speed * speed - new_vx * new_vx;
    let new_vy = isqrt(rest as u128);
    assert(new_vy <= speed) by (nonlinear_arith)
        requires
            new_vy * new_vy <= rest,
            rest <= speed * speed,
            0 <= speed,
            0 <= new_vy,
    ;
    [new_vx as i64, new_vy as i64]
}

impl BallView {
    /// The ball moved at its velocity for `dt` microseconds.
    pub open spec fn advanced(self, dt: int) -> BallView {
        BallView { x: self.x + step(self.vx, dt), y: self.y + step(self.vy, dt), ..self }
    }
}

impl PaddleView {
    /// The paddle moved at its velocity for `dt` microseconds.
    pub open spec fn advanced(self, dt: int) -> PaddleView {
        PaddleView { x: self.x + step(self.vx, dt), y: self.y + step(self.vy, dt), ..self }
    }
}

/// The ball strikes the paddle: their boxes overlap, the ball's center lies
/// over the paddle, and the ball's vertical extent meets the paddle's.
pub open spec fn strikes_paddle(b: BallView, p: PaddleView) -> bool {
    &&& bounds_meet(b.bounds(), p.bounds())
    &&& p.x <= b.x <= p.x + p.width
    &&& b.y - b.radius <= p.y + p.height
    &&& b.y + b.radius >= p.y
}

/// Twice the signed distance from the paddle's middle to the ball's center.
pub open spec fn strike_offset(b: BallView, p: PaddleView) -> int {
    2 * b.x - (2 * p.x + p.width)
}

/// The ball after striking the paddle: lifted above the paddle's top by as much
/// as it had sunk below it, and sent off at the deflected velocity.
pub open spec fn bounced_off_paddle(b: BallView, p: PaddleView) -> BallView {
    let top = p.y + p.height;
    let dip = top - (b.y - b.radius);
    let speed = boosted_speed(b.vx, b.vy);
    let vx = deflected_vx(strike_offset(b, p), p.width, speed);
    BallView { y: top + dip + b.radius, vx, vy: deflected_vy(vx, speed), ..b }
}

/// The ball reflected off the top wall, if it reaches it.
pub open spec fn off_top_wall(b: BallView) -> BallView {
    if b.y + b.radius >= UNIT {
        let passed = b.y + b.radius - UNIT;
        BallView { y: UNIT - passed - b.radius, vy: -b.vy, ..b }
    } else {
        b
    }
}

/// The ball reflected off the left wall, if it reaches it.
pub open spec fn off_left_wall(b: BallView) -> BallView {
    if b.x - b.radius <= 0 {
        let passed = b.radius - b.x;
        BallView { x: b.radius + passed, vx: -b.vx, ..b }
    } else {
        b
    }
}

/// The ball reflected off the right wall, if it reaches it.
pub open spec fn off_right_wall(b: BallView) -> BallView {
    if b.x + b.radius >= UNIT {
        let passed = b.x + b.radius - UNIT;
        BallView { x: UNIT - passed - b.radius, vx: -b.vx, ..b }
    } else {
        b
    }
}

/// The ball after its collisions with the paddle and then with the top, left
/// and right walls, in that order.
pub open spec fn ball_after_collisions(b: BallView, p: PaddleView) -> BallView {
    let b1 = if strikes_paddle(b, p) {
        bounced_off_paddle(b, p)
    } else {
        b
    };
    off_right_wall(off_left_wall(off_top_wall(b1)))
}

/// The paddle held inside the play-field: where an edge reaches a side wall,
/// the paddle is put against that wall and stopped.
pub open spec fn paddle_clamped(p: PaddleView) -> PaddleView {
    let p1 = if p.x + p.width >= UNIT {
        PaddleView { x: UNIT - p.width, vx: 0, vy: 0, ..p }
    } else {
        p
    };
    if p.x <= 0 {
        PaddleView { x: 0, vx: 0, vy: 0, ..p1 }
    } else {
        p1
    }
}

/// A block slot after the ball has passed: a present block whose box meets the
/// ball's is destroyed.
pub open spec fn slot_after(b: BallView, slot: Option<BlockView>) -> Option<BlockView> {
    match slot {
        Some(k) => if bounds_meet(b.bounds(), k.bounds()) {
            None
        } else {
            slot
        },
        None => None,
    }
}

/// All block slots after the ball has passed.
pub open spec fn slots_after(b: BallView, slots: Seq<Option<BlockView>>) -> Seq<
    Option<BlockView>,
> {
    slots.map_values(|s: Option<BlockView>| slot_after(b, s))
}

} // verus!
