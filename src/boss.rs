use vstd::prelude::*;

use crate::geometry::{distance_sq, in_world, Vec2};

verus! {

/// Durations of the boss's behaviour, in microseconds.
pub const BOSS_TIME_BETWEEN_ATTACKS: u64 = 3_000_000;
pub const TIME_TO_REPOSITION: u64 = 3_500_000;
pub const SKY_LAZER_DURATION: u64 = 2_000_000;
pub const SKY_LAZER_SPAWN_FREQUENCY: u64 = 300_000;
pub const SKY_ATTACK_DURATION: u64 = 5_000_000;
pub const SKY_ATTACK_START_TIME: u64 = 250_000;
pub const BEAM_LAZER_DURATION: u64 = 1_650_000;
pub const BEAM_ATTACK_DURATION: u64 = 2_000_000;

/// The time since the last reposition stops counting after an hour (µs); the trigger
/// roll is saturated long before.
pub const REPOSITION_CLOCK_LIMIT: i64 = 3_600_000_000;

/// Distances (thousandths of a unit) within which the player can provoke a reposition
/// or a beam.
pub const REPOSITION_RANGE: u64 = 600_000;
pub const BEAM_RANGE: u64 = 500_000;

/// A committed attack the boss begins.
#[derive(Clone, Copy, Debug, PartialEq, Eq, Structural)]
pub enum BossAttack {
    /// Swoop to the other anchor point.
    Reposition,
    /// A directed beam at the player's current position.
    Beam,
    /// A window of projectiles falling around the player.
    SkyWindow,
}

/// What the boss does in one tick.
#[derive(Clone, Copy, Debug, PartialEq, Eq, Structural)]
pub struct BossDecision {
    /// While repositioning, the time travelled along the arc (µs, up to
    /// `TIME_TO_REPOSITION`); nothing else is decided in such a tick.
    pub arc_time: Option<u64>,
    /// A sky window is open.
    pub alarmed: bool,
    /// Spawn the sky window's warning.
    pub telegraph: bool,
    /// Spawn one falling projectile around the player.
    pub sky_projectile: bool,
    /// The committed attack begun this tick, if any.
    pub attack: Option<BossAttack>,
}

/// The boss's decision state: four countdowns and the side it repositions to next.
#[derive(Clone, Copy, Debug, PartialEq, Eq, Structural)]
pub struct BossController {
    pub unchained: bool,
    /// Time left before the next committed attack (µs); zero means ready.
    pub time_until_next_attack: u64,
    /// Time since the last reposition ended (µs); negative while one is under way.
    pub time_since_last_reposition_ended: i64,
    /// Time left of the current sky window (µs).
    pub sky_lazer_remaining_duration: u64,
    /// Time left of the current beam (µs).
    pub beam_lazer_remaining_duration: u64,
    pub repositioning_to_left: bool,
}

pub open spec fn count_down(t: u64, dt: u64) -> u64 {
    if t > dt { (t - dt) as u64 } else { 0 }
}

/// Whether a countdown passing from `before` to `after` crossed a multiple of `period`.
pub open spec fn crossed_multiple(before: int, after: int, period: int) -> bool {
    before % period < after % period
}

impl BossController {
    pub open spec fn wf(self) -> bool {
        &&& -(TIME_TO_REPOSITION as int) <= self.time_since_last_reposition_ended <= REPOSITION_CLOCK_LIMIT
        &&& self.sky_lazer_remaining_duration <= SKY_ATTACK_DURATION
        &&& (self.sky_lazer_remaining_duration > 0 ==> self.time_until_next_attack
            >= self.sky_lazer_remaining_duration + BOSS_TIME_BETWEEN_ATTACKS)
        &&& self.time_until_next_attack <= BOSS_TIME_BETWEEN_ATTACKS + SKY_ATTACK_DURATION
        &&& self.beam_lazer_remaining_duration <= BEAM_ATTACK_DURATION
    }

    /// A boss ready to attack, that will first reposition to the left.
    pub fn new() -> (r: BossController)
        ensures
            r.wf(),
            r == (BossController {
                unchained: false,
                time_until_next_attack: 0,
                time_since_last_reposition_ended: 0,
                sky_lazer_remaining_duration: 0,
                beam_lazer_remaining_duration: 0,
                repositioning_to_left: true,
            }),
    {
        BossController {
            unchained: false,
            time_until_next_attack: 0,
            time_since_last_reposition_ended: 0,
            sky_lazer_remaining_duration: 0,
            beam_lazer_remaining_duration: 0,
            repositioning_to_left: true,
        }
    }

    pub open spec fn advanced(self, dt: u64) -> BossController {
        let ts = self.time_since_last_reposition_ended + dt;
        BossController {
            time_until_next_attack: count_down(self.time_until_next_attack, dt),
            time_since_last_reposition_ended: if ts > REPOSITION_CLOCK_LIMIT { REPOSITION_CLOCK_LIMIT } else { ts as i64 },
            sky_lazer_remaining_duration: count_down(self.sky_lazer_remaining_duration, dt),
            beam_lazer_remaining_duration: count_down(self.beam_lazer_remaining_duration, dt),
            ..self
        }
    }

    /// Runs the clocks by `dt`: the countdowns stop at zero, the time since the last
    /// reposition grows (up to `REPOSITION_CLOCK_LIMIT`).
    pub fn advance_timers(&mut self, dt: u64)
        requires
            old(self).wf(),
        ensures
            *final(self) == old(self).advanced(dt),
            final(self).wf(),
    {
        self.time_until_next_attack = if self.time_until_next_attack > dt { self.time_until_next_attack - dt } else { 0 };
        self.sky_lazer_remaining_duration = if self.sky_lazer_remaining_duration > dt {
            self.sky_lazer_remaining_duration - dt
        } else {
            0
        };
        self.beam_lazer_remaining_duration = if self.beam_lazer_remaining_duration > dt {
            self.beam_lazer_remaining_duration - dt
        } else {
            0
        };
        let room: u64 = (REPOSITION_CLOCK_LIMIT - self.time_since_last_reposition_ended) as u64;
        self.time_since_last_reposition_ended = if dt >= room {
            REPOSITION_CLOCK_LIMIT
        } else {
            self.time_since_last_reposition_ended + dt as i64
        };
    }

    /// Whether the boss is swooping this tick: the clock was negative before the step.
    pub open spec fn is_repositioning(self, dt: u64) -> bool {
        self.time_since_last_reposition_ended - dt < 0
    }

    /// Time travelled along the arc: from the start when heading left, from the end
    /// when heading right.
    pub open spec fn arc_time_spec(self) -> int {
        let m = if self.time_since_last_reposition_ended < 0 { self.time_since_last_reposition_ended as int } else { 0 };
        if self.repositioning_to_left { TIME_TO_REPOSITION + m } else { -m }
    }

    pub open spec fn sky_telegraph(self, dt: u64) -> bool {
        self.sky_lazer_remaining_duration + dt > SKY_ATTACK_DURATION - SKY_ATTACK_START_TIME
            && SKY_ATTACK_DURATION - SKY_ATTACK_START_TIME >= self.sky_lazer_remaining_duration
    }

    pub open spec fn sky_spawn(self, dt: u64) -> bool {
        crossed_multiple(
            self.sky_lazer_remaining_duration + dt,
            self.sky_lazer_remaining_duration as int,
            SKY_LAZER_SPAWN_FREQUENCY as int,
        )
    }

    /// One decision, on clocks already advanced by `dt`, with the boss at `boss_pos`,
    /// the player at `target`, and `reposition_roll_won` the outcome of this tick's
    /// random reposition roll. In priority order: a reposition under way only reports
    /// its arc time; in a sky window the telegraph is spawned when the window's elapsed
    /// time crosses its start, and a projectile each time the remaining time crosses a
    /// multiple of the spawn period (which ends the tick). Then, off cooldown: a won
    /// roll within reposition range starts a reposition to the other side; else within
    /// beam range a beam; else a sky window. Each committed attack sets the cooldown to
    /// the time between attacks plus its own duration.
    pub fn decide(&mut self, dt: u64, boss_pos: Vec2, target: Vec2, reposition_roll_won: bool) -> (r: BossDecision)
        requires
            old(self).wf(),
            in_world(boss_pos),
            in_world(target),
        ensures
            final(self).wf(),
            r.attack is Some ==> !r.alarmed && !r.telegraph && !r.sky_projectile && r.arc_time is None,
            ({
                let s = *old(self);
                let d2 = (target.x - boss_pos.x) * (target.x - boss_pos.x) + (target.y - boss_pos.y) * (target.y - boss_pos.y);
                let sky = s.sky_lazer_remaining_duration > 0;
                let quiet = BossDecision {
                    arc_time: None,
                    alarmed: sky,
                    telegraph: sky && s.sky_telegraph(dt),
                    sky_projectile: false,
                    attack: None,
                };
                if s.is_repositioning(dt) {
                    &&& r == (BossDecision {
                        arc_time: Some(s.arc_time_spec() as u64),
                        alarmed: false,
                        telegraph: false,
                        sky_projectile: false,
                        attack: None,
                    })
                    &&& *final(self) == s
                } else if sky && s.sky_spawn(dt) {
                    &&& r == (BossDecision { sky_projectile: true, ..quiet })
                    &&& *final(self) == s
                } else if s.time_until_next_attack == 0 && d2 <= REPOSITION_RANGE * REPOSITION_RANGE && reposition_roll_won {
                    &&& r == (BossDecision { attack: Some(BossAttack::Reposition), ..quiet })
                    &&& *final(self) == (BossController {
                        time_until_next_attack: (BOSS_TIME_BETWEEN_ATTACKS + TIME_TO_REPOSITION) as u64,
                        time_since_last_reposition_ended: (-TIME_TO_REPOSITION) as i64,
                        repositioning_to_left: !s.repositioning_to_left,
                        ..s
                    })
                } else if s.time_until_next_attack == 0 && d2 <= BEAM_RANGE * BEAM_RANGE {
                    &&& r == (BossDecision { attack: Some(BossAttack::Beam), ..quiet })
                    &&& *final(self) == (BossController {
                        time_until_next_attack: (BOSS_TIME_BETWEEN_ATTACKS + BEAM_ATTACK_DURATION) as u64,
                        beam_lazer_remaining_duration: BEAM_ATTACK_DURATION,
                        ..s
                    })
                } else if s.time_until_next_attack == 0 {
                    &&& r == (BossDecision { attack: Some(BossAttack::SkyWindow), ..quiet })
                    &&& *final(self) == (BossController {
                        time_until_next_attack: (BOSS_TIME_BETWEEN_ATTACKS + SKY_ATTACK_DURATION) as u64,
                        sky_lazer_remaining_duration: SKY_ATTACK_DURATION,
                        ..s
                    })
                } else {
                    &&& r == quiet
                    &&& *final(self) == s
                }
            }),
    {
        let ts = self.time_since_last_reposition_ended;
        if (ts as i128) - (dt as i128) < 0 {
            let m: i64 = if ts < 0 { ts } else { 0 };
            let arc: u64 = if self.repositioning_to_left {
                (TIME_TO_REPOSITION as i64 + m) as u64
            } else {
                (-m) as u64
            };
            return BossDecision { arc_time: Some(arc), alarmed: false, telegraph: false, sky_projectile: false, attack: None };
        }
        let rem = self.sky_lazer_remaining_duration;
        let sky = rem > 0;
        let before: u64 = rem + dt;
        let start_mark: u64 = SKY_ATTACK_DURATION - SKY_ATTACK_START_TIME;
        let telegraph = sky && before > start_mark && start_mark >= rem;
        if sky && before % SKY_LAZER_SPAWN_FREQUENCY < rem % SKY_LAZER_SPAWN_FREQUENCY {
            return BossDecision { arc_time: None, alarmed: true, telegraph, sky_projectile: true, attack: None };
        }
        let quiet = BossDecision { arc_time: None, alarmed: sky, telegraph, sky_projectile: false, attack: None };
        if self.time_until_next_attack > 0 {
            return quiet;
        }
        let d2 = distance_sq(boss_pos, target);
        assert((target.x - boss_pos.x) * (target.x - boss_pos.x) == (boss_pos.x - target.x) * (boss_pos.x - target.x)) by (nonlinear_arith);
        if d2 <= (REPOSITION_RANGE as u128) * (REPOSITION_RANGE as u128) && reposition_roll_won {
            self.time_until_next_attack = BOSS_TIME_BETWEEN_ATTACKS + TIME_TO_REPOSITION;
            self.time_since_last_reposition_ended = -(TIME_TO_REPOSITION as i64);
            self.repositioning_to_left = !self.repositioning_to_left;
            return BossDecision { attack: Some(BossAttack::Reposition), ..quiet };
        }
        if d2 <= (BEAM_RANGE as u128) * (BEAM_RANGE as u128) {
            self.time_until_next_attack = BOSS_TIME_BETWEEN_ATTACKS + BEAM_ATTACK_DURATION;
            self.beam_lazer_remaining_duration = BEAM_ATTACK_DURATION;
            return BossDecision { attack: Some(BossAttack::Beam), ..quiet };
        }
        self.time_until_next_attack = BOSS_TIME_BETWEEN_ATTACKS + SKY_ATTACK_DURATION;
        self.sky_lazer_remaining_duration = SKY_ATTACK_DURATION;
        BossDecision { attack: Some(BossAttack::SkyWindow), ..quiet }
    }
}

/// A laser of the boss, alive for a fixed time.
#[derive(Clone, Copy, Debug, PartialEq, Eq, Structural)]
pub struct Lazer {
    /// Time left (µs).
    pub time_remaining: u64,
}

impl Lazer {
    pub fn new(time_remaining: u64) -> (r: Lazer)
        ensures
            r.time_remaining == time_remaining,
    {
        Lazer { time_remaining }
    }

    /// Runs the laser's clock; returns `true` when its time is over (more than what was
    /// left has passed), and the laser is then to be removed.
    pub fn tick(&mut self, dt: u64) -> (expired: bool)
        ensures
            expired == (dt > old(self).time_remaining),
            !expired ==> final(self).time_remaining == old(self).time_remaining - dt,
            expired ==> final(self).time_remaining == 0,
    {
        if dt > self.time_remaining {
            self.time_remaining = 0;
            true
        } else {
            self.time_remaining = self.time_remaining - dt;
            false
        }
    }
}

} // verus!
