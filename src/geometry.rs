use vstd::prelude::*;

verus! {

/// One world unit is a thousand of these: positions and velocities are fixed-point.
pub const MILLIS_PER_UNIT: i64 = 1000;

/// Time is counted in microseconds.
pub const MICROS_PER_SECOND: u64 = 1_000_000;

/// Largest coordinate magnitude (in thousandths of a unit) the simulation admits.
pub const WORLD_LIMIT: i64 = 1_000_000_000;

/// Largest velocity magnitude (thousandths of a unit per second) the simulation admits.
pub const SPEED_LIMIT: i64 = 1_000_000_000;

/// A 2-D vector in thousandths of a world unit (or of a unit per second).
#[derive(Clone, Copy, Debug, PartialEq, Eq, Structural)]
pub struct Vec2 {
    pub x: i64,
    pub y: i64,
}

pub open spec fn in_world(v: Vec2) -> bool {
    -WORLD_LIMIT <= v.x <= WORLD_LIMIT && -WORLD_LIMIT <= v.y <= WORLD_LIMIT
}

pub open spec fn speed_ok(v: Vec2) -> bool {
    -SPEED_LIMIT <= v.x <= SPEED_LIMIT && -SPEED_LIMIT <= v.y <= SPEED_LIMIT
}

pub open spec fn sign(v: int) -> int {
    if v > 0 { 1 } else if v < 0 { -1 } else { 0 }
}

pub open spec fn abs(v: int) -> int {
    if v < 0 { -v } else { v }
}

impl Vec2 {
    pub fn new(x: i64, y: i64) -> (r: Vec2)
        ensures
            r == (Vec2 { x, y }),
    {
        Vec2 { x, y }
    }

    pub fn zero() -> (r: Vec2)
        ensures
            r == (Vec2 { x: 0, y: 0 }),
    {
        Vec2 { x: 0, y: 0 }
    }
}

/// Sign of an integer as -1, 0 or 1.
pub fn signum(v: i64) -> (r: i64)
    ensures
        r == sign(v as int),
{
    if v > 0 {
        1
    } else if v < 0 {
        -1
    } else {
        0
    }
}

pub open spec fn near_world(v: Vec2) -> bool {
    -2 * WORLD_LIMIT <= v.x <= 2 * WORLD_LIMIT && -2 * WORLD_LIMIT <= v.y <= 2 * WORLD_LIMIT
}

/// Squared distance between two points of (or near) the world.
pub fn distance_sq(a: Vec2, b: Vec2) -> (r: u128)
    requires
        near_world(a),
        near_world(b),
    ensures
        r as int == (b.x - a.x) * (b.x - a.x) + (b.y - a.y) * (b.y - a.y),
{
    let dx: i64 = b.x - a.x;
    let dy: i64 = b.y - a.y;
    let ax: u128 = if dx < 0 { (-dx) as u128 } else { dx as u128 };
    let ay: u128 = if dy < 0 { (-dy) as u128 } else { dy as u128 };
    assert(ax * ax <= 16_000_000_000_000_000_000u128) by (nonlinear_arith)
        requires
            ax <= 4_000_000_000,
    ;
    assert(ay * ay <= 16_000_000_000_000_000_000u128) by (nonlinear_arith)
        requires
            ay <= 4_000_000_000,
    ;
    assert(ax * ax == dx * dx) by (nonlinear_arith)
        requires
            ax == abs(dx as int),
    ;
    assert(ay * ay == dy * dy) by (nonlinear_arith)
        requires
            ay == abs(dy as int),
    ;
    ax * ax + ay * ay
}

pub open spec fn is_isqrt(n: int, r: int) -> bool {
    r >= 0 && r * r <= n && n < (r + 1) * (r + 1)
}

/// The square root of `n`, rounded down.
pub open spec fn sqrt_floor(n: int) -> int {
    choose|r: int| is_isqrt(n, r)
}

pub proof fn lemma_isqrt_unique(n: int, r1: int, r2: int)
    requires
        is_isqrt(n, r1),
        is_isqrt(n, r2),
    ensures
        r1 == r2,
{
    if r1 < r2 {
        assert((r1 + 1) * (r1 + 1) <= r2 * r2) by (nonlinear_arith)
            requires
                0 <= r1 < r2,
        ;
    } else if r2 < r1 {
        assert((r2 + 1) * (r2 + 1) <= r1 * r1) by (nonlinear_arith)
            requires
                0 <= r2 < r1,
        ;
    }
}

/// Integer square root, rounded down.
pub fn isqrt(n: u64) -> (r: u64)
    ensures
        is_isqrt(n as int, r as int),
        r as int == sqrt_floor(n as int),
{
    // Binary search on [lo, hi): lo*lo <= n < hi*hi.
    let mut lo: u64 = 0;
    let mut hi: u64 = 4_294_967_296;
    assert(hi * hi > n) by (nonlinear_arith)
        requires
            hi == 4_294_967_296u64,
            n <= u64::MAX,
    ;
    while hi - lo > 1
        invariant
            lo < hi,
            hi <= 4_294_967_296,
            lo * lo <= n,
            n < hi * hi,
        decreases hi - lo,
    {
        let mid: u64 = lo + (hi - lo) / 2;
        assert(mid < 4_294_967_296);
        assert(mid * mid <= 18_446_744_065_119_617_025u64) by (nonlinear_arith)
            requires
                mid <= 4_294_967_295u64,
        ;
        if mid * mid <= n {
            lo = mid;
        } else {
            hi = mid;
        }
    }
    assert(hi == lo + 1);
    proof {
        lemma_isqrt_unique(n as int, lo as int, sqrt_floor(n as int));
    }
    lo
}

} // verus!
