use vstd::prelude::*;

use crate::object::GameObject;
use crate::shape::{self, Shape};

verus! {

/// A position or a velocity, as `[x, y]`.
#[allow(non_camel_case_types)]
pub type vec2 = [i64; 2];

/// Length of the play-field's side: positions on the field run from `0` to
/// `UNIT` on both axes.
pub const UNIT: i64 = 1_000_000;

/// Microseconds in one second, the unit of time of velocities.
pub const MICROS_PER_SECOND: i64 = 1_000_000;

/// Bound on the coordinates and lengths that a tick starts from.
pub const COORD_LIMIT: i64 = 1_000_000_000_000;

/// Bound on each velocity component that a tick starts from.
pub const SPEED_LIMIT: i64 = 1_000_000_000_000;

/// Longest time step: one second.
pub const DT_LIMIT: i64 = 1_000_000;

/// Bound on the coordinates and lengths of a shape whose bounding box can be
/// computed.
pub const SHAPE_LIMIT: i64 = 1_000_000_000_000_000;

/// `v` lies in `[-limit, limit]`.
pub open spec fn within(v: int, limit: int) -> bool {
    -limit <= v <= limit
}

/// Whether `v` lies in `[-limit, limit]`.
pub(crate) fn is_within(v: i64, limit: i64) -> (r: bool)
    requires
        limit >= 0,
    ensures
        r == within(v as int, limit as int),
{
    -limit <= v && v <= limit
}

/// Integer division rounded toward zero, as Rust's `/` rounds; `b` is positive.
pub open spec fn trunc_div(a: int, b: int) -> int {
    if a >= 0 {
        a / b
    } else {
        -((-a) / b)
    }
}

/// Distance covered in `dt` microseconds at velocity `v`, rounded toward zero.
pub open spec fn step(v: int, dt: int) -> int {
    trunc_div(v * dt, MICROS_PER_SECOND as int)
}

/// `r` is the square root of `n`, rounded down.
pub open spec fn is_sqrt_floor(n: int, r: int) -> bool {
    0 <= r && r * r <= n < (r + 1) * (r + 1)
}

/// The square root of `n`, rounded down; `n` is not negative.
pub open spec fn sqrt_floor(n: int) -> int {
    choose|r: int| is_sqrt_floor(n, r)
}

/// Every integer that is not negative has a rounded-down square root.
pub proof fn lemma_sqrt_floor(n: int)
    requires
        n >= 0,
    ensures
        is_sqrt_floor(n, sqrt_floor(n)),
    decreases n,
{
    if n == 0 {
        assert(is_sqrt_floor(0, 0));
    } else {
        lemma_sqrt_floor(n - 1);
        let r = sqrt_floor(n - 1);
        if (r + 1) * (r + 1) <= n {
            assert(is_sqrt_floor(n, r + 1)) by (nonlinear_arith)
                requires
                    0 <= r,
                    (r + 1) * (r + 1) <= n,
                    n - 1 < (r + 1) * (r + 1),
            ;
        } else {
            assert(is_sqrt_floor(n, r));
        }
    }
}

/// The rounded-down square root is unique.
pub proof fn lemma_sqrt_floor_unique(n: int, r: int)
    requires
        is_sqrt_floor(n, r),
    ensures
        sqrt_floor(n) == r,
{
    let s = sqrt_floor(n);
    assert(is_sqrt_floor(n, s));
    if s < r {
        assert((s + 1) * (s + 1) <= r * r) by (nonlinear_arith)
            requires
                0 <= s,
                s + 1 <= r,
        ;
    } else if r < s {
        assert((r + 1) * (r + 1) <= s * s) by (nonlinear_arith)
            requires
                0 <= r,
                r + 1 <= s,
        ;
    }
}

/// The square root of `n`, rounded down.
pub fn isqrt(n: u128) -> (r: u128)
    requires
        n < 0x10000000000000000000000000,
    ensures
        is_sqrt_floor(n as int, r as int),
        r == sqrt_floor(n as int),
{
    let mut lo: u128 = 0;
    let mut hi: u128 = 0x4000000000000;
    assert(hi * hi == 0x10000000000000000000000000);
    while hi - lo > 1
        invariant
            lo < hi <= 0x4000000000000,
            lo * lo <= n < hi * hi,
        decreases hi - lo,
    {
        let mid: u128 = lo + (hi - lo) / 2;
        assert(mid * mid <= 0x4000000000000 * 0x4000000000000) by (nonlinear_arith)
            requires
                mid < 0x4000000000000,
        ;
        if mid * mid <= n {
            lo = mid;
        } else {
            hi = mid;
        }
    }
    proof {
        lemma_sqrt_floor_unique(n as int, lo as int);
    }
    lo
}

/// `start` moved at `velocity` for `dt` microseconds.
pub open spec fn spec_next_point(start: vec2, velocity: vec2, dt: int) -> vec2 {
    [
        (start[0] + step(velocity[0] as int, dt)) as i64,
        (start[1] + step(velocity[1] as int, dt)) as i64,
    ]
}

/// A velocity within `SPEED_LIMIT` covers at most `COORD_LIMIT` in a time step.
pub proof fn lemma_step_bounds(v: int, dt: int)
    requires
        within(v, SPEED_LIMIT as int),
        0 <= dt <= DT_LIMIT,
    ensures
        within(step(v, dt), COORD_LIMIT as int),
        within(v * dt, SPEED_LIMIT * DT_LIMIT),
{
    if v >= 0 {
        assert(0 <= v * dt <= SPEED_LIMIT * DT_LIMIT) by (nonlinear_arith)
            requires
                0 <= v <= SPEED_LIMIT,
                0 <= dt <= DT_LIMIT,
        ;
    } else {
        assert(0 <= (-v) * dt <= SPEED_LIMIT * DT_LIMIT) by (nonlinear_arith)
            requires
                0 < -v <= SPEED_LIMIT,
                0 <= dt <= DT_LIMIT,
        ;
        assert((-v) * dt == -(v * dt)) by (nonlinear_arith);
    }
}

/// Distance covered in `dt` microseconds at velocity `v`.
fn distance(v: i64, dt: i64) -> (r: i64)
    requires
        within(v as int, SPEED_LIMIT as int),
        0 <= dt <= DT_LIMIT,
    ensures
        r == step(v as int, dt as int),
        within(r as int, COORD_LIMIT as int),
{
    proof {
        lemma_step_bounds(v as int, dt as int);
    }
    if v >= 0 {
        v * dt / MICROS_PER_SECOND
    } else {
        assert((-v) * dt == -(v * dt)) by (nonlinear_arith);
        -((-v) * dt / MICROS_PER_SECOND)
    }
}

/// Explicit Euler step: `start + velocity * dt`, each component rounded toward
/// zero.
pub fn next_point(start: vec2, velocity: vec2, dt: i64) -> (r: vec2)
    requires
        within(start[0] as int, COORD_LIMIT as int),
        within(start[1] as int, COORD_LIMIT as int),
        within(velocity[0] as int, SPEED_LIMIT as int),
        within(velocity[1] as int, SPEED_LIMIT as int),
        0 <= dt <= DT_LIMIT,
    ensures
        r == spec_next_point(start, velocity, dt as int),
        r[0] == start[0] + step(velocity[0] as int, dt as int),
        r[1] == start[1] + step(velocity[1] as int, dt as int),
{
    let dx = distance(velocity.x(), dt);
    let dy = distance(velocity.y(), dt);
    [start.x() + dx, start.y() + dy]
}

/// Moves `obj` by its velocity over `dt` microseconds.
pub fn tick_position<G: GameObject>(obj: &mut G, dt: i64)
    requires
        within(old(obj).spec_location()[0] as int, COORD_LIMIT as int),
        within(old(obj).spec_location()[1] as int, COORD_LIMIT as int),
        within(old(obj).spec_velocity()[0] as int, SPEED_LIMIT as int),
        within(old(obj).spec_velocity()[1] as int, SPEED_LIMIT as int),
        0 <= dt <= DT_LIMIT,
    ensures
        *final(obj) == old(obj).with_location(
            spec_next_point(old(obj).spec_location(), old(obj).spec_velocity(), dt as int),
        ),
{
    let loc = obj.location();
    let vel = obj.velocity();
    obj.set_location(next_point(loc, vel, dt));
}

pub trait Vec2 {
    fn x(&self) -> i64;

    fn y(&self) -> i64;
}

impl Vec2 for vec2 {
    fn x(&self) -> (r: i64)
        ensures
            r == self[0],
    {
        self[0]
    }

    fn y(&self) -> (r: i64)
        ensures
            r == self[1],
    {
        self[1]
    }
}

/// Whether the intervals `[a[0], a[1]]` and `[b[0], b[1]]` overlap; touching
/// end points count.
pub fn overlapping_segments(a: vec2, b: vec2) -> (r: bool)
    requires
        a[0] <= a[1],
        b[0] <= b[1],
    ensures
        r == shape::segments_meet(a[0] as int, a[1] as int, b[0] as int, b[1] as int),
{
    a[1] >= b[0] && b[1] >= a[0]
}

/// Whether two boxes overlap: both their horizontal and their vertical
/// projections overlap.
pub fn overlapping_boxes(a: &shape::Box, b: &shape::Box) -> (r: bool)
    requires
        a.wf(),
        b.wf(),
    ensures
        r == shape::bounds_meet(a@, b@),
{
    overlapping_segments([a.left, a.right], [b.left, b.right])
        && overlapping_segments([a.bottom, a.top], [b.bottom, b.top])
}

/// Broad phase: whether the bounding boxes of `a` and `b` overlap.
pub fn objects_are_close<A: Shape, B: Shape>(a: &A, b: &B) -> (r: bool)
    requires
        a.box_fits(),
        b.box_fits(),
    ensures
        r == shape::bounds_meet(a.spec_bounding_box(), b.spec_bounding_box()),
{
    overlapping_boxes(&a.bounding_box(), &b.bounding_box())
}

} // verus!
