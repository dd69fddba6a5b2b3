use vstd::prelude::*;

use crate::geometry::{distance_sq, in_world, sign, signum, Vec2};
use crate::timer::Timer;

verus! {

/// Reaction delay of a fresh attack chain, and the ceiling of the fury formula (µs).
pub const INITIAL_ATTACK_DELAY: u64 = 2_000_000;

/// Floor of the reaction delay (µs).
pub const MINIMUM_ATTACK_DELAY: u64 = 50_000;

/// How long a successful swing keeps the weapon ready (µs).
pub const ATTACK_PERIOD: u64 = 2_000_000;

/// How long the weapon cools down before the chain ends (µs).
pub const GRACE_PERIOD: u64 = 2_000_000;

/// Weapon length multiplier of a fresh chain, in thousandths; also its ceiling.
pub const INITIAL_EXTEND_SCALE: u64 = 8000;

/// Floor of the weapon length multiplier, in thousandths.
pub const MINIMUM_EXTEND_SCALE: u64 = 1000;

/// Distance (thousandths of a unit) under which a swing counts as having reached its pose.
pub const POSE_REACHED_DISTANCE: u64 = 1000;

/// Distance (thousandths of a unit) under which a swing enters its hit delay.
pub const HIT_DELAY_DISTANCE: u64 = 100_000;

/// Which side the weapon swings from.
#[derive(Clone, Copy, Debug, PartialEq, Eq, Structural)]
pub enum AttackPosition {
    Up,
    Down,
}

/// The attack phase state machine.
#[derive(Clone, Copy, Debug, PartialEq, Eq, Structural)]
pub enum AttackPhase {
    /// Time from the button press to the swing.
    Reacting(Timer),
    /// The swing itself, anchored where the player stood when it began.
    Attacking { anchor: Vec2, direction: Vec2, hit_delay_elapsed: bool },
    /// A hit landed; pressing attack again keeps the chain going.
    Ready(Timer),
    /// The chain winds down; pressing attack again resumes it.
    Cooling(Timer),
}

/// The attack component of the player: present exactly while the player is committed to a chain.
#[derive(Clone, Copy, Debug, PartialEq, Eq, Structural)]
pub struct Attack {
    pub phase: AttackPhase,
    /// Length of the reacting phase (µs).
    pub attack_delay: u64,
    /// Weapon length multiplier in thousandths.
    pub extend_scale: u64,
    pub position: AttackPosition,
}

/// What the weapon's hit-detection region must do after a tick.
#[derive(Clone, Copy, Debug, PartialEq, Eq, Structural)]
pub enum HitWindow {
    Unchanged,
    Enable,
    Disable,
}

/// Progress reported by the weapon while it travels towards its swing pose: close to
/// its pose the hit delay begins (`in_attack_delay` false); at its pose, once in the
/// hit delay, the swing resolves (`in_attack_delay` true).
#[derive(Clone, Copy, Debug, PartialEq, Eq, Structural)]
pub struct DoAttackEvent {
    pub in_attack_delay: bool,
}

pub open spec fn next_position(p: AttackPosition) -> AttackPosition {
    match p {
        AttackPosition::Up => AttackPosition::Down,
        AttackPosition::Down => AttackPosition::Up,
    }
}

/// Offset of the weapon from the player for a pose, as a pure function of side and direction.
pub open spec fn translate_spec(p: AttackPosition, dir: Vec2) -> (int, int) {
    if dir.x == 0 {
        let kick: int = if p == AttackPosition::Down { -70_000 } else { 0 };
        (30_000 + kick, 10_000 * sign(dir.y as int))
    } else {
        let kick: int = if p == AttackPosition::Down { 110_000 } else { 0 };
        (-60_000 * sign(dir.x as int), -47_000 + kick)
    }
}

/// Mirror sign of the weapon's x-scale for a pose.
pub open spec fn scale_spec(p: AttackPosition, dir: Vec2) -> int {
    let vertical = dir.x == 0;
    let positive = if vertical { dir.y > 0 } else { dir.x > 0 };
    if (vertical && !positive && p == AttackPosition::Up)
        || (vertical && positive && p == AttackPosition::Down)
        || (!vertical && positive && p == AttackPosition::Down)
        || (!vertical && !positive && p == AttackPosition::Up) {
        1
    } else {
        -1
    }
}

impl AttackPosition {
    /// The other side.
    pub fn get_next(&self) -> (r: AttackPosition)
        ensures
            r == next_position(*self),
    {
        match self {
            AttackPosition::Up => AttackPosition::Down,
            AttackPosition::Down => AttackPosition::Up,
        }
    }

    /// Weapon offset (thousandths of a unit) from the player for this side and direction.
    pub fn get_translate(&self, attack_direction: Vec2) -> (r: Vec2)
        ensures
            (r.x as int, r.y as int) == translate_spec(*self, attack_direction),
    {
        if attack_direction.x == 0 {
            let kick: i64 = match self {
                AttackPosition::Down => -70_000,
                AttackPosition::Up => 0,
            };
            Vec2 { x: 30_000 + kick, y: 10_000 * signum(attack_direction.y) }
        } else {
            let kick: i64 = match self {
                AttackPosition::Down => 110_000,
                AttackPosition::Up => 0,
            };
            Vec2 { x: -60_000 * signum(attack_direction.x), y: -47_000 + kick }
        }
    }

    /// Mirror sign (1 or -1) of the weapon sprite's x-scale, so that it never renders backwards.
    pub fn get_scale(&self, attack_direction: Vec2) -> (r: i64)
        ensures
            r == scale_spec(*self, attack_direction),
    {
        let is_vertical = attack_direction.x == 0;
        let is_positive = if is_vertical {
            attack_direction.y > 0
        } else {
            attack_direction.x > 0
        };
        let is_up = match self {
            AttackPosition::Up => true,
            AttackPosition::Down => false,
        };
        if (is_vertical && !is_positive && is_up) || (is_vertical && is_positive && !is_up) || (
        !is_vertical && is_positive && !is_up) || (!is_vertical && !is_positive && is_up) {
            1
        } else {
            -1
        }
    }
}

impl AttackPhase {
    pub open spec fn wf(self) -> bool {
        match self {
            AttackPhase::Reacting(t) => t.wf(),
            AttackPhase::Attacking { .. } => true,
            AttackPhase::Ready(t) => t.wf(),
            AttackPhase::Cooling(t) => t.wf(),
        }
    }

    pub open spec fn ticked(self, dt: u64) -> AttackPhase {
        match self {
            AttackPhase::Reacting(t) => AttackPhase::Reacting(t.ticked(dt)),
            AttackPhase::Attacking { .. } => self,
            AttackPhase::Ready(t) => AttackPhase::Ready(t.ticked(dt)),
            AttackPhase::Cooling(t) => AttackPhase::Cooling(t.ticked(dt)),
        }
    }

    /// Advances the phase's timer; the swing itself has none.
    pub fn tick(&mut self, dt: u64)
        requires
            old(self).wf(),
        ensures
            *final(self) == old(self).ticked(dt),
            final(self).wf(),
    {
        match self {
            AttackPhase::Reacting(timer) => timer.tick(dt),
            AttackPhase::Attacking { .. } => {},
            AttackPhase::Ready(timer) => timer.tick(dt),
            AttackPhase::Cooling(timer) => timer.tick(dt),
        }
    }

    /// Whether the phase is over: its timer ran out, or, for the swing, the caller says so.
    pub fn finished(&self, attack_finished: bool) -> (r: bool)
        ensures
            r == match *self {
                AttackPhase::Reacting(t) => t.is_finished(),
                AttackPhase::Attacking { .. } => attack_finished,
                AttackPhase::Ready(t) => t.is_finished(),
                AttackPhase::Cooling(t) => t.is_finished(),
            },
    {
        match self {
            AttackPhase::Reacting(timer) => timer.finished(),
            AttackPhase::Attacking { .. } => attack_finished,
            AttackPhase::Ready(timer) => timer.finished(),
            AttackPhase::Cooling(timer) => timer.finished(),
        }
    }

    /// The phase entered after a hit.
    pub fn new_ready_timer() -> (r: AttackPhase)
        ensures
            r == AttackPhase::Ready(Timer { duration: ATTACK_PERIOD, elapsed: 0, just_finished: false }),
    {
        AttackPhase::Ready(Timer::new(ATTACK_PERIOD))
    }

    /// The phase entered after a miss or an unused ready window.
    pub fn new_cooling_timer() -> (r: AttackPhase)
        ensures
            r == AttackPhase::Cooling(Timer { duration: GRACE_PERIOD, elapsed: 0, just_finished: false }),
    {
        AttackPhase::Cooling(Timer::new(GRACE_PERIOD))
    }
}

impl Default for AttackPhase {
    fn default() -> (r: AttackPhase)
        ensures
            r == AttackPhase::Reacting(Timer { duration: INITIAL_ATTACK_DELAY, elapsed: 0, just_finished: false }),
    {
        AttackPhase::Reacting(Timer::new(INITIAL_ATTACK_DELAY))
    }
}

/// The reaction delay after one resolution of the fury formula.
pub open spec fn fury_delay(delay: int, hit: bool) -> int {
    if hit {
        let d = delay * 4 / 5;
        if d < MINIMUM_ATTACK_DELAY { MINIMUM_ATTACK_DELAY as int } else { d }
    } else {
        let d = delay * 6 / 5;
        if d > INITIAL_ATTACK_DELAY { INITIAL_ATTACK_DELAY as int } else { d }
    }
}

/// The weapon length multiplier after one resolution of the fury formula.
pub open spec fn fury_scale(scale: int, hit: bool) -> int {
    if hit {
        let s = scale * 4 / 5;
        if s < MINIMUM_EXTEND_SCALE { MINIMUM_EXTEND_SCALE as int } else { s }
    } else {
        let s = scale * 6 / 5;
        if s > INITIAL_EXTEND_SCALE { INITIAL_EXTEND_SCALE as int } else { s }
    }
}

pub open spec fn fury_bounds(delay: int, scale: int) -> bool {
    MINIMUM_ATTACK_DELAY <= delay <= INITIAL_ATTACK_DELAY
        && MINIMUM_EXTEND_SCALE <= scale <= INITIAL_EXTEND_SCALE
}

impl Attack {
    pub open spec fn wf(self) -> bool {
        fury_bounds(self.attack_delay as int, self.extend_scale as int) && self.phase.wf()
    }

    /// A chain that starts reacting with the given delay and weapon length.
    pub fn new(attack_delay: u64, extend_scale: u64) -> (r: Attack)
        requires
            fury_bounds(attack_delay as int, extend_scale as int),
        ensures
            r.wf(),
            r == (Attack {
                phase: AttackPhase::Reacting(Timer { duration: attack_delay, elapsed: 0, just_finished: false }),
                attack_delay,
                extend_scale,
                position: AttackPosition::Up,
            }),
    {
        Attack {
            phase: AttackPhase::Reacting(Timer::new(attack_delay)),
            attack_delay,
            extend_scale,
            position: AttackPosition::Up,
        }
    }

    /// Applies the fury formula: a hit shortens the delay and the weapon by a fifth,
    /// down to their floors; a miss lengthens both by a fifth, up to their starting values.
    pub fn update_fury(&mut self, increase_fury: bool)
        requires
            fury_bounds(old(self).attack_delay as int, old(self).extend_scale as int),
        ensures
            final(self).attack_delay as int == fury_delay(old(self).attack_delay as int, increase_fury),
            final(self).extend_scale as int == fury_scale(old(self).extend_scale as int, increase_fury),
            final(self).phase == old(self).phase,
            final(self).position == old(self).position,
            fury_bounds(final(self).attack_delay as int, final(self).extend_scale as int),
    {
        if increase_fury {
            let d = self.attack_delay * 4 / 5;
            self.attack_delay = if d < MINIMUM_ATTACK_DELAY { MINIMUM_ATTACK_DELAY } else { d };
            let s = self.extend_scale * 4 / 5;
            self.extend_scale = if s < MINIMUM_EXTEND_SCALE { MINIMUM_EXTEND_SCALE } else { s };
        } else {
            let d = self.attack_delay * 6 / 5;
            self.attack_delay = if d > INITIAL_ATTACK_DELAY { INITIAL_ATTACK_DELAY } else { d };
            let s = self.extend_scale * 6 / 5;
            self.extend_scale = if s > INITIAL_EXTEND_SCALE { INITIAL_EXTEND_SCALE } else { s };
        }
    }

    /// A reacting phase as long as the current delay.
    pub fn new_reaction_timer(&self) -> (r: AttackPhase)
        ensures
            r == AttackPhase::Reacting(Timer { duration: self.attack_delay, elapsed: 0, just_finished: false }),
    {
        AttackPhase::Reacting(Timer::new(self.attack_delay))
    }
}

impl Default for Attack {
    fn default() -> (r: Attack)
        ensures
            r.wf(),
            r == (Attack {
                phase: AttackPhase::Reacting(Timer { duration: INITIAL_ATTACK_DELAY, elapsed: 0, just_finished: false }),
                attack_delay: INITIAL_ATTACK_DELAY,
                extend_scale: INITIAL_EXTEND_SCALE,
                position: AttackPosition::Up,
            }),
    {
        Attack::new(INITIAL_ATTACK_DELAY, INITIAL_EXTEND_SCALE)
    }
}

} // verus!

verus! {

/// The attack after one tick of the state machine, and what the hit window must do.
pub open spec fn handler_spec(
    attack: Option<Attack>,
    has_attack_input: bool,
    dt: u64,
    player_pos: Vec2,
    attack_direction: Vec2,
) -> (Option<Attack>, HitWindow) {
    match attack {
        None => (
            if has_attack_input {
                Some(
                    Attack {
                        phase: AttackPhase::Reacting(Timer { duration: INITIAL_ATTACK_DELAY, elapsed: 0, just_finished: false }),
                        attack_delay: INITIAL_ATTACK_DELAY,
                        extend_scale: INITIAL_EXTEND_SCALE,
                        position: AttackPosition::Up,
                    },
                )
            } else {
                None
            },
            HitWindow::Unchanged,
        ),
        Some(a0) => {
            let a = Attack { phase: a0.phase.ticked(dt), ..a0 };
            let react = Attack {
                phase: AttackPhase::Reacting(Timer { duration: a.attack_delay, elapsed: 0, just_finished: false }),
                ..a
            };
            match a.phase {
                AttackPhase::Reacting(t) => if t.just_finished {
                    (
                        Some(
                            Attack {
                                phase: AttackPhase::Attacking {
                                    anchor: player_pos,
                                    direction: attack_direction,
                                    hit_delay_elapsed: false,
                                },
                                ..a
                            },
                        ),
                        HitWindow::Enable,
                    )
                } else {
                    (Some(a), HitWindow::Unchanged)
                },
                AttackPhase::Attacking { .. } => (Some(a), HitWindow::Unchanged),
                AttackPhase::Ready(t) => if t.just_finished {
                    (
                        Some(
                            Attack {
                                phase: AttackPhase::Cooling(Timer { duration: GRACE_PERIOD, elapsed: 0, just_finished: false }),
                                attack_delay: fury_delay(a.attack_delay as int, false) as u64,
                                extend_scale: fury_scale(a.extend_scale as int, false) as u64,
                                position: a.position,
                            },
                        ),
                        HitWindow::Disable,
                    )
                } else if has_attack_input {
                    (Some(react), HitWindow::Disable)
                } else {
                    (Some(a), HitWindow::Disable)
                },
                AttackPhase::Cooling(t) => if t.just_finished {
                    (None, HitWindow::Unchanged)
                } else if has_attack_input {
                    (Some(react), HitWindow::Unchanged)
                } else {
                    (Some(a), HitWindow::Unchanged)
                },
            }
        },
    }
}

/// One tick of the attack state machine. `None` is the idle player: an attack input
/// starts a chain. Otherwise the phase timer advances: a finished reaction starts the
/// swing (anchored at the player, towards the current attack direction) and enables
/// the hit window; every ready tick disables it, and an unused ready window applies the
/// miss fury and cools down; a finished cooldown ends the chain; an attack input while
/// ready or cooling reacts again with the current delay.
pub fn attack_handler(
    attack: Option<Attack>,
    has_attack_input: bool,
    dt: u64,
    player_pos: Vec2,
    attack_direction: Vec2,
) -> (r: (Option<Attack>, HitWindow))
    requires
        attack matches Some(a) ==> a.wf(),
    ensures
        r == handler_spec(attack, has_attack_input, dt, player_pos, attack_direction),
        r.0 matches Some(a) ==> a.wf(),
        r.0 matches Some(b) ==> (attack matches Some(a) ==> b.position == a.position),
{
    let mut a = match attack {
        None => {
            if has_attack_input {
                return (Some(Attack::default()), HitWindow::Unchanged);
            }
            return (None, HitWindow::Unchanged);
        },
        Some(a) => a,
    };
    a.phase.tick(dt);
    match a.phase {
        AttackPhase::Reacting(timer) => {
            if timer.just_finished {
                a.phase = AttackPhase::Attacking {
                    anchor: player_pos,
                    direction: attack_direction,
                    hit_delay_elapsed: false,
                };
                (Some(a), HitWindow::Enable)
            } else {
                (Some(a), HitWindow::Unchanged)
            }
        },
        AttackPhase::Attacking { .. } => (Some(a), HitWindow::Unchanged),
        AttackPhase::Ready(timer) => {
            if timer.just_finished {
                a.update_fury(false);
                a.phase = AttackPhase::new_cooling_timer();
            } else if has_attack_input {
                a.phase = a.new_reaction_timer();
            }
            (Some(a), HitWindow::Disable)
        },
        AttackPhase::Cooling(timer) => {
            if timer.just_finished {
                (None, HitWindow::Unchanged)
            } else {
                if has_attack_input {
                    a.phase = a.new_reaction_timer();
                }
                (Some(a), HitWindow::Unchanged)
            }
        },
    }
}

/// The attack after its swing resolves: the fury formula applies, a hit switches the
/// swing side and readies the weapon, a miss cools it down.
pub open spec fn resolve_spec(a: Attack, hit: bool) -> Attack {
    Attack {
        phase: if hit {
            AttackPhase::Ready(Timer { duration: ATTACK_PERIOD, elapsed: 0, just_finished: false })
        } else {
            AttackPhase::Cooling(Timer { duration: GRACE_PERIOD, elapsed: 0, just_finished: false })
        },
        attack_delay: fury_delay(a.attack_delay as int, hit) as u64,
        extend_scale: fury_scale(a.extend_scale as int, hit) as u64,
        position: if hit { next_position(a.position) } else { a.position },
    }
}

impl Attack {
    /// Reacts to the weapon's progress during a swing. Near its pose the hit delay
    /// begins; at its pose the swing resolves with the hit/no-hit signal, and `true`
    /// is returned (the caller then clears that signal). Outside a swing nothing happens.
    pub fn do_attack(&mut self, event: DoAttackEvent, it_hit_something: bool) -> (resolved: bool)
        requires
            old(self).wf(),
        ensures
            final(self).wf(),
            match old(self).phase {
                AttackPhase::Attacking { anchor, direction, .. } => if event.in_attack_delay {
                    resolved && *final(self) == resolve_spec(*old(self), it_hit_something)
                } else {
                    !resolved && *final(self) == (Attack {
                        phase: AttackPhase::Attacking { anchor, direction, hit_delay_elapsed: true },
                        ..*old(self)
                    })
                },
                _ => !resolved && *final(self) == *old(self),
            },
    {
        match self.phase {
            AttackPhase::Attacking { anchor, direction, .. } => {
                if event.in_attack_delay {
                    self.update_fury(it_hit_something);
                    if it_hit_something {
                        self.position = self.position.get_next();
                        self.phase = AttackPhase::new_ready_timer();
                    } else {
                        self.phase = AttackPhase::new_cooling_timer();
                    }
                    true
                } else {
                    self.phase = AttackPhase::Attacking { anchor, direction, hit_delay_elapsed: true };
                    false
                }
            },
            _ => false,
        }
    }
}

/// Where the weapon is headed during a swing: the anchor plus the pose of the other side.
pub open spec fn swing_target(anchor: Vec2, direction: Vec2, position: AttackPosition) -> (int, int) {
    let off = translate_spec(next_position(position), direction);
    (anchor.x + off.0, anchor.y + off.1)
}

/// The progress event a swing reports, given where the weapon is: at its pose (within
/// `POSE_REACHED_DISTANCE`) once the hit delay began, near it (within `HIT_DELAY_DISTANCE`)
/// before that.
pub fn swing_event(
    weapon_pos: Vec2,
    anchor: Vec2,
    direction: Vec2,
    position: AttackPosition,
    hit_delay_elapsed: bool,
) -> (r: Option<DoAttackEvent>)
    requires
        in_world(weapon_pos),
        in_world(anchor),
    ensures
        ({
            let t = swing_target(anchor, direction, position);
            let d2 = (weapon_pos.x - t.0) * (weapon_pos.x - t.0) + (weapon_pos.y - t.1) * (weapon_pos.y - t.1);
            r == if hit_delay_elapsed && d2 < POSE_REACHED_DISTANCE * POSE_REACHED_DISTANCE {
                Some(DoAttackEvent { in_attack_delay: true })
            } else if !hit_delay_elapsed && d2 < HIT_DELAY_DISTANCE * HIT_DELAY_DISTANCE {
                Some(DoAttackEvent { in_attack_delay: false })
            } else {
                None
            }
        }),
{
    let off = position.get_next().get_translate(direction);
    let target = Vec2 { x: anchor.x + off.x, y: anchor.y + off.y };
    let d2 = distance_sq(weapon_pos, target);
    assert((target.x - weapon_pos.x) * (target.x - weapon_pos.x) == (weapon_pos.x - target.x) * (
    weapon_pos.x - target.x)) by (nonlinear_arith);
    assert((target.y - weapon_pos.y) * (target.y - weapon_pos.y) == (weapon_pos.y - target.y) * (
    weapon_pos.y - target.y)) by (nonlinear_arith);
    if hit_delay_elapsed && d2 < (POSE_REACHED_DISTANCE as u128) * (POSE_REACHED_DISTANCE as u128) {
        Some(DoAttackEvent { in_attack_delay: true })
    } else if !hit_delay_elapsed && d2 < (HIT_DELAY_DISTANCE as u128) * (HIT_DELAY_DISTANCE as u128) {
        Some(DoAttackEvent { in_attack_delay: false })
    } else {
        None
    }
}

} // verus!

verus! {

/// One attack-direction input applied to the current direction, with precedence
/// up > down (airborne only) > right > left; a downward input on the ground, or a
/// null one, leaves the direction as it is.
pub open spec fn direction_step(current: Vec2, input: Vec2, grounded: bool) -> Vec2 {
    if input.y > 0 {
        Vec2 { x: 0, y: 1000 }
    } else if input.y < 0 && !grounded {
        Vec2 { x: 0, y: -1000i64 }
    } else if input.y < 0 {
        current
    } else if input.x > 0 {
        Vec2 { x: 1000, y: 0 }
    } else if input.x < 0 {
        Vec2 { x: -1000i64, y: 0 }
    } else {
        current
    }
}

pub open spec fn direction_after(current: Vec2, inputs: Seq<Vec2>, grounded: bool) -> Vec2
    decreases inputs.len(),
{
    if inputs.len() == 0 {
        current
    } else {
        direction_step(direction_after(current, inputs.drop_last(), grounded), inputs.last(), grounded)
    }
}

/// The attack direction after this tick's directional inputs, taken in order. A
/// dashing player's inputs steer the dash, not the weapon: they are ignored.
pub fn player_attack_direction(current: Vec2, inputs: &Vec<Vec2>, is_grounded: bool, is_dashing: bool) -> (r: Vec2)
    ensures
        r == if is_dashing { current } else { direction_after(current, inputs@, is_grounded) },
{
    if is_dashing {
        return current;
    }
    let mut dir = current;
    let mut i: usize = 0;
    while i < inputs.len()
        invariant
            i <= inputs.len(),
            dir == direction_after(current, inputs@.subrange(0, i as int), is_grounded),
        decreases inputs.len() - i,
    {
        let d = inputs[i];
        proof {
            assert(inputs@.subrange(0, i + 1).drop_last() =~= inputs@.subrange(0, i as int));
        }
        if d.y > 0 {
            dir = Vec2 { x: 0, y: 1000 };
        } else if d.y < 0 && !is_grounded {
            dir = Vec2 { x: 0, y: -1000 };
        } else if d.y < 0 {
        } else if d.x > 0 {
            dir = Vec2 { x: 1000, y: 0 };
        } else if d.x < 0 {
            dir = Vec2 { x: -1000, y: 0 };
        }
        i = i + 1;
    }
    assert(inputs@.subrange(0, inputs.len() as int) =~= inputs@);
    dir
}

/// Sprite-space lengths (thousandths of a pixel) of the extendable weapon.
pub const OFFSET_FROM_BASE: i64 = 900_000;
pub const EXTEND_SIZE: i64 = 604;
pub const OFFSET_FROM_EXTEND: i64 = 53_000;

/// Placement of the weapon's middle and head sprites for a length multiplier.
#[derive(Clone, Copy, Debug, PartialEq, Eq, Structural)]
pub struct WeaponLayout {
    /// Vertical offset of the extendable middle (thousandths of a pixel).
    pub extend_y: i64,
    /// Vertical scale of the middle, in thousandths.
    pub extend_scale: u64,
    /// Vertical offset of the head, which sits at the end of the middle.
    pub head_y: i64,
}

/// Lays out the weapon for the current chain, or at its shortest when idle.
pub fn update_weapon_length(attack: Option<Attack>) -> (r: WeaponLayout)
    requires
        attack matches Some(a) ==> a.wf(),
    ensures
        r.extend_y == OFFSET_FROM_BASE,
        r.extend_scale == match attack {
            Some(a) => a.extend_scale,
            None => MINIMUM_EXTEND_SCALE,
        },
        r.head_y == OFFSET_FROM_BASE + EXTEND_SIZE * r.extend_scale - (EXTEND_SIZE * 1000
            - OFFSET_FROM_EXTEND) - 1000,
{
    let extend_scale: u64 = match attack {
        Some(a) => a.extend_scale,
        None => MINIMUM_EXTEND_SCALE,
    };
    let head_y: i64 = OFFSET_FROM_BASE + EXTEND_SIZE * (extend_scale as i64) - (EXTEND_SIZE * 1000
        - OFFSET_FROM_EXTEND) - 1000;
    WeaponLayout { extend_y: OFFSET_FROM_BASE, extend_scale, head_y }
}

} // verus!

verus! {

/// A sound the attack asks for.
#[derive(Clone, Copy, Debug, PartialEq, Eq, Structural)]
pub enum AttackSound {
    /// A hit, with the reaction delay (µs) that chose its pitch.
    Hit(u64),
    /// A miss, likewise.
    Miss(u64),
    /// The swing itself.
    Slash,
}

/// Which of the eight hit (or miss) sounds fits a reaction delay: one step per halving
/// of the delay below one second.
pub open spec fn sound_index(delay: u64) -> usize {
    if delay >= 1_000_000 {
        7
    } else if delay >= 500_000 {
        6
    } else if delay >= 250_000 {
        5
    } else if delay >= 125_000 {
        4
    } else if delay >= 62_000 {
        3
    } else if delay >= 31_000 {
        2
    } else if delay >= 16_000 {
        1
    } else {
        0
    }
}

/// The sound to play for a reaction delay (µs).
pub fn wut_sound_to_play(delay: u64) -> (r: usize)
    ensures
        r == sound_index(delay),
        r < 8,
{
    if delay >= 1_000_000 {
        7
    } else if delay >= 500_000 {
        6
    } else if delay >= 250_000 {
        5
    } else if delay >= 125_000 {
        4
    } else if delay >= 62_000 {
        3
    } else if delay >= 31_000 {
        2
    } else if delay >= 16_000 {
        1
    } else {
        0
    }
}

} // verus!
