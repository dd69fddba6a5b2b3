use vstd::prelude::*;

verus! {

/// Largest hit-point magnitude (thousandths of a point) the game admits.
pub const HP_LIMIT: i64 = 1_000_000_000_000;

/// Hit points, in thousandths of a point.
#[derive(Clone, Copy, Debug, PartialEq, Eq, Structural)]
pub struct Health {
    pub current: i64,
    pub max: i64,
}

impl Health {
    pub open spec fn wf(self) -> bool {
        0 < self.max <= HP_LIMIT && -HP_LIMIT <= self.current <= self.max
    }

    /// Full health.
    pub fn new(max: i64) -> (r: Health)
        requires
            0 < max <= HP_LIMIT,
        ensures
            r.wf(),
            r == (Health { current: max, max }),
    {
        Health { current: max, max }
    }

    /// Applies the sum of this tick's changes (negative for damage). Health never
    /// rises above its maximum (and, far below zero, stops at `-HP_LIMIT`). Returns
    /// whether the holder is dead: health at or below zero.
    pub fn change_hp(&mut self, delta: i64) -> (died: bool)
        requires
            old(self).wf(),
            -HP_LIMIT <= delta <= HP_LIMIT,
        ensures
            final(self).wf(),
            final(self).max == old(self).max,
            ({
                let c = old(self).current + delta;
                final(self).current == if c > old(self).max {
                    old(self).max as int
                } else if c < -HP_LIMIT {
                    -HP_LIMIT
                } else {
                    c
                }
            }),
            died == (final(self).current <= 0),
    {
        let c: i64 = self.current + delta;
        self.current = if c > self.max {
            self.max
        } else if c < -HP_LIMIT {
            -HP_LIMIT
        } else {
            c
        };
        self.current <= 0
    }
}

/// The receiving side of a collision: after being hit it can be hit again only once
/// its re-hit delay is over.
#[derive(Clone, Copy, Debug, PartialEq, Eq, Structural)]
pub struct HurtBox {
    /// Re-hit delay (µs).
    pub full_rehit_delay: u64,
    /// Time left of it (µs); zero means it can be hit.
    pub remaining_rehit_delay: u64,
}

/// The dealing side of a collision: after dealing damage it is immune (deals none)
/// for a while.
#[derive(Clone, Copy, Debug, PartialEq, Eq, Structural)]
pub struct HitBox {
    /// Time left of its immunity (µs); zero means it deals damage.
    pub remaining_immunity_duration: u64,
    pub full_immunity_duration: u64,
    /// Damage per hit (thousandths of a point).
    pub damage: i64,
}

impl HurtBox {
    /// A hurt box starts inside its re-hit delay.
    pub fn new(full_rehit_delay: u64) -> (r: HurtBox)
        ensures
            r == (HurtBox { full_rehit_delay, remaining_rehit_delay: full_rehit_delay }),
    {
        HurtBox { full_rehit_delay, remaining_rehit_delay: full_rehit_delay }
    }

    pub fn tick(&mut self, dt: u64)
        ensures
            final(self).full_rehit_delay == old(self).full_rehit_delay,
            final(self).remaining_rehit_delay == if old(self).remaining_rehit_delay > dt {
                old(self).remaining_rehit_delay - dt
            } else {
                0
            },
    {
        self.remaining_rehit_delay = if self.remaining_rehit_delay > dt { self.remaining_rehit_delay - dt } else { 0 };
    }
}

impl HitBox {
    /// A hit box starts inside its immunity.
    pub fn new(full_immunity_duration: u64, damage: i64) -> (r: HitBox)
        ensures
            r == (HitBox { remaining_immunity_duration: full_immunity_duration, full_immunity_duration, damage }),
    {
        HitBox { remaining_immunity_duration: full_immunity_duration, full_immunity_duration, damage }
    }

    pub fn tick(&mut self, dt: u64)
        ensures
            final(self).full_immunity_duration == old(self).full_immunity_duration,
            final(self).damage == old(self).damage,
            final(self).remaining_immunity_duration == if old(self).remaining_immunity_duration > dt {
                old(self).remaining_immunity_duration - dt
            } else {
                0
            },
    {
        self.remaining_immunity_duration = if self.remaining_immunity_duration > dt {
            self.remaining_immunity_duration - dt
        } else {
            0
        };
    }
}

/// Resolves one collision between a hurt box and a hit box. The player's weapon only
/// hurts others and the others' hit boxes only hurt the player; a hurt box within its
/// re-hit delay, or a hit box within its immunity, does nothing. Otherwise the hit box
/// deals its damage (returned as a negative change) and becomes immune again.
pub fn get_hurt(hurt_is_player: bool, hit_is_weapon: bool, hurtbox: &HurtBox, hitbox: &mut HitBox) -> (r: Option<i64>)
    requires
        -HP_LIMIT <= old(hitbox).damage <= HP_LIMIT,
    ensures
        ({
            let lands = hurt_is_player != hit_is_weapon && hurtbox.remaining_rehit_delay == 0
                && old(hitbox).remaining_immunity_duration == 0;
            &&& r == if lands { Some(-old(hitbox).damage as i64) } else { None }
            &&& *final(hitbox) == if lands {
                HitBox { remaining_immunity_duration: old(hitbox).full_immunity_duration, ..*old(hitbox) }
            } else {
                *old(hitbox)
            }
        }),
{
    if hurt_is_player == hit_is_weapon {
        return None;
    }
    if hurtbox.remaining_rehit_delay > 0 {
        return None;
    }
    if hitbox.remaining_immunity_duration == 0 {
        hitbox.remaining_immunity_duration = hitbox.full_immunity_duration;
        Some(-hitbox.damage)
    } else {
        None
    }
}

} // verus!
