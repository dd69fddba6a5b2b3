use vstd::prelude::*;

use crate::geometry::{abs, in_world, isqrt, sign, sqrt_floor, speed_ok, Vec2, SPEED_LIMIT};

verus! {

/// Upward velocity of an enemy's jump (thousandths of a unit per second).
pub const ENEMY_JUMP_IMPULSE: i64 = 650_000;

/// Gravity (thousandths of a unit per second squared).
pub const GRAVITY: i64 = 2_000_000;

/// Tuning of the two slime kinds: top horizontal speed and jump-attack cooldown (µs).
pub const RED_MAX_X_VELOCITY: i64 = 325_000;
pub const RED_JUMP_ATTACK_COOLDOWN: u64 = 2_000_000;
pub const BLACK_MAX_X_VELOCITY: i64 = 250_000;
pub const BLACK_JUMP_ATTACK_COOLDOWN: u64 = 3_500_000;

/// Longest jump-attack cooldown a slime may be given (µs): one hour.
pub const MAX_JUMP_ATTACK_COOLDOWN: u64 = 3_600_000_000;

/// The highest a jump can climb: half the impulse squared over gravity, rounded down.
pub open spec fn reachable_height() -> int {
    ENEMY_JUMP_IMPULSE * ENEMY_JUMP_IMPULSE / (2 * GRAVITY)
}

/// The height difference a jump aims at, clamped to what a jump can reach.
pub open spec fn aimed_height(dy: int) -> int {
    if dy > reachable_height() { reachable_height() } else { dy }
}

/// The radicand of the time-of-flight formula; never negative thanks to the clamp.
pub open spec fn radicand(dy: int) -> int {
    ENEMY_JUMP_IMPULSE * ENEMY_JUMP_IMPULSE - 2 * GRAVITY * aimed_height(dy)
}

/// Time (µs) for a jump to come down through the aimed height: the later root of the
/// trajectory, with the square root rounded down.
pub open spec fn flight_time(dy: int) -> int {
    (ENEMY_JUMP_IMPULSE + sqrt_floor(radicand(dy))) * 1_000_000 / (GRAVITY as int)
}

/// The radicand `JUMP_IMPULSE² − 2·GRAVITY·Δy` for a height difference `dy`, with `dy`
/// first clamped to the reachable height.
pub fn jump_radicand(dy: i64) -> (r: u64)
    requires
        -2_000_000_000 <= dy <= 2_000_000_000,
    ensures
        r as int == radicand(dy as int),
        0 <= radicand(dy as int),
        r <= 8_000_422_500_000_000u64,
{
    let ceiling: i64 = ENEMY_JUMP_IMPULSE * ENEMY_JUMP_IMPULSE / (2 * GRAVITY);
    let h: i64 = if dy > ceiling { ceiling } else { dy };
    assert(2 * GRAVITY * ceiling <= ENEMY_JUMP_IMPULSE * ENEMY_JUMP_IMPULSE);
    (ENEMY_JUMP_IMPULSE * ENEMY_JUMP_IMPULSE - 2 * GRAVITY * h) as u64
}

/// Time of flight (µs) of a jump attack towards a target `dy` above (negative: below).
pub fn time_of_flight(dy: i64) -> (t: u64)
    requires
        -2_000_000_000 <= dy <= 2_000_000_000,
    ensures
        t as int == flight_time(dy as int),
        325_000 <= t <= 100_000_000,
{
    let r = jump_radicand(dy);
    let s = isqrt(r);
    assert(s <= 100_000_000) by (nonlinear_arith)
        requires
            s * s <= r,
            r <= 8_000_422_500_000_000u64,
    ;
    let t: u64 = (ENEMY_JUMP_IMPULSE as u64 + s) * 1_000_000 / (GRAVITY as u64);
    assert(325_000 <= t <= 100_000_000) by (nonlinear_arith)
        requires
            s <= 100_000_000,
            t == (650_000 + s) * 1_000_000 / 2_000_000,
    ;
    t
}

/// The melee/jump enemy's controller.
#[derive(Clone, Copy, Debug, PartialEq, Eq, Structural)]
pub struct SlimeController {
    /// Top horizontal launch speed (thousandths of a unit per second).
    pub max_x_velocity: i64,
    /// Cooldown set by each jump attack, before its half flight time is added (µs).
    pub jump_attack_full_cooldown: u64,
    /// Time left before the next jump attack (µs); zero means ready.
    pub jump_attack_cooldown: u64,
    /// Predicted time left until the jump in flight lands (µs).
    pub expected_time_until_jump_hits: u64,
}

impl SlimeController {
    pub open spec fn wf(self) -> bool {
        &&& 0 <= self.max_x_velocity <= SPEED_LIMIT
        &&& self.jump_attack_full_cooldown <= MAX_JUMP_ATTACK_COOLDOWN
        &&& self.jump_attack_cooldown <= MAX_JUMP_ATTACK_COOLDOWN + 100_000_000
    }

    /// A controller ready to attack at once.
    pub fn new(max_x_velocity: i64, jump_attack_full_cooldown: u64) -> (r: SlimeController)
        requires
            0 <= max_x_velocity <= SPEED_LIMIT,
            jump_attack_full_cooldown <= MAX_JUMP_ATTACK_COOLDOWN,
        ensures
            r.wf(),
            r == (SlimeController {
                max_x_velocity,
                jump_attack_full_cooldown,
                jump_attack_cooldown: 0,
                expected_time_until_jump_hits: 0,
            }),
    {
        SlimeController {
            max_x_velocity,
            jump_attack_full_cooldown,
            jump_attack_cooldown: 0,
            expected_time_until_jump_hits: 0,
        }
    }

    /// One decision tick. Both countdowns run down by `dt` (stopping at zero). On the
    /// ground with the cooldown over, the slime jumps at the target: the vertical
    /// impulse is added, the horizontal speed is the distance over the flight time,
    /// capped at the top speed and signed towards the target, and the cooldown becomes
    /// the full cooldown plus half the flight time. Otherwise, on the ground with the
    /// cooldown under the full cooldown (just landed), it stands still. Returns the new
    /// velocity.
    pub fn enemy_decision_making(
        &mut self,
        dt: u64,
        pos: Vec2,
        target: Vec2,
        is_grounded: bool,
        velocity: Vec2,
    ) -> (r: Vec2)
        requires
            old(self).wf(),
            in_world(pos),
            in_world(target),
            speed_ok(velocity),
        ensures
            final(self).wf(),
            speed_ok(r),
            final(self).max_x_velocity == old(self).max_x_velocity,
            final(self).jump_attack_full_cooldown == old(self).jump_attack_full_cooldown,
            ({
                let cd = if old(self).jump_attack_cooldown > dt { old(self).jump_attack_cooldown - dt } else { 0 };
                let eta = if old(self).expected_time_until_jump_hits > dt { old(self).expected_time_until_jump_hits - dt } else { 0 };
                let dx = target.x - pos.x;
                let dy = target.y - pos.y;
                let t = flight_time(dy);
                let speed = if abs(dx) * 1_000_000 / t > old(self).max_x_velocity {
                    old(self).max_x_velocity as int
                } else {
                    abs(dx) * 1_000_000 / t
                };
                if is_grounded && cd == 0 {
                    &&& r.x == sign(dx) * speed
                    &&& r.y == if velocity.y + ENEMY_JUMP_IMPULSE > SPEED_LIMIT { SPEED_LIMIT as int } else { velocity.y + ENEMY_JUMP_IMPULSE }
                    &&& final(self).jump_attack_cooldown == old(self).jump_attack_full_cooldown + t / 2
                    &&& final(self).expected_time_until_jump_hits == t
                } else {
                    &&& r == if is_grounded && cd < old(self).jump_attack_full_cooldown {
                        Vec2 { x: 0, y: velocity.y }
                    } else {
                        velocity
                    }
                    &&& final(self).jump_attack_cooldown == cd
                    &&& final(self).expected_time_until_jump_hits == eta
                }
            }),
    {
        self.jump_attack_cooldown = if self.jump_attack_cooldown > dt { self.jump_attack_cooldown - dt } else { 0 };
        self.expected_time_until_jump_hits = if self.expected_time_until_jump_hits > dt {
            self.expected_time_until_jump_hits - dt
        } else {
            0
        };
        let dx: i64 = target.x - pos.x;
        let dy: i64 = target.y - pos.y;
        if is_grounded && self.jump_attack_cooldown == 0 {
            let t = time_of_flight(dy);
            let adx: u64 = if dx < 0 { (-dx) as u64 } else { dx as u64 };
            let reach: u64 = adx * 1_000_000 / t;
            let speed: i64 = if reach > self.max_x_velocity as u64 { self.max_x_velocity } else { reach as i64 };
            let vx: i64 = if dx > 0 { speed } else if dx < 0 { -speed } else { 0 };
            let vy0: i64 = velocity.y + ENEMY_JUMP_IMPULSE;
            let vy: i64 = if vy0 > SPEED_LIMIT { SPEED_LIMIT } else { vy0 };
            self.jump_attack_cooldown = self.jump_attack_full_cooldown + t / 2;
            self.expected_time_until_jump_hits = t;
            return Vec2 { x: vx, y: vy };
        }
        if is_grounded && self.jump_attack_cooldown < self.jump_attack_full_cooldown {
            Vec2 { x: 0, y: velocity.y }
        } else {
            velocity
        }
    }
}

} // verus!
