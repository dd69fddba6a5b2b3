use vstd::prelude::*;

use crate::geometry::{Vec2, SPEED_LIMIT};

verus! {

/// Horizontal running speed (thousandths of a unit per second).
pub const MOVEMENT_SPEED: i64 = 500_000;

/// Dash speed as a multiple of the running speed.
pub const DASH_SPEED_MODIFIER: i64 = 60;

/// Upward velocity a jump adds.
pub const JUMP_IMPULSE: i64 = 800_000;

/// Rate (per second) of the exponential approach of the running speed.
pub const MOVEMENT_BLEND_RATE: u64 = 10;

/// Gravity scale (thousandths) of a player not in a jump's ascent.
pub const CHARACTER_GRAVITY_SCALE: u64 = 1500;

/// Gravity scale (thousandths) during a jump's ascent.
pub const JUMP_HANG_GRAVITY_SCALE: u64 = 500;

/// Durations, in microseconds.
pub const DASH_DURATION: u64 = 200_000;
pub const JUMP_DURATION: u64 = 400_000;
pub const COYOTE_WINDOW: u64 = 200_000;
pub const DASH_COOLDOWN: u64 = 500_000;

/// Height (thousandths of a unit) below which a fallen player is put back.
pub const FALL_RECOVERY_HEIGHT: i64 = -1_500_000;

/// The movement state of the player.
#[derive(Clone, Copy, Debug, PartialEq, Eq, Structural)]
pub enum PlayerMovementState {
    /// Standing; the flag drives the sprite's reversing animation.
    Idle(bool),
    Run,
    /// Jumping, with the time left before the ascent ends (µs).
    Jump(u64),
    /// Dashing, with the time left (µs).
    Dash(u64),
}

/// A movement intent.
#[derive(Clone, Copy, Debug, PartialEq, Eq, Structural)]
pub enum MovementAction {
    Move(Vec2),
    JumpStart,
    JumpEnd,
    Dash,
}

/// The grounded movement controller of the player, together with the physical quantities
/// it reads and writes: velocity (thousandths of a unit per second), gravity scale
/// (thousandths) and the grounded flag from the ground probe.
#[derive(Clone, Copy, Debug, PartialEq, Eq, Structural)]
pub struct MovementController {
    pub state: PlayerMovementState,
    /// Sign (1 or -1) of the direction the player faces.
    pub face_direction: i64,
    pub velocity: Vec2,
    pub gravity_scale: u64,
    pub grounded: bool,
    /// Time left of the grace window for jumping after leaving the ground (µs).
    pub coyote: Option<u64>,
    /// A dash was used since the player last stood on the ground.
    pub dashing_used: bool,
    /// Time left before dashing is allowed again (µs).
    pub dashing_cooldown: Option<u64>,
}

pub open spec fn clamp_speed(v: int) -> int {
    if v > SPEED_LIMIT { SPEED_LIMIT as int } else if v < -SPEED_LIMIT { -SPEED_LIMIT } else { v }
}

/// Division rounding towards zero, as machine division does.
pub open spec fn div_toward_zero(a: int, b: int) -> int {
    if a >= 0 { a / b } else { -((-a) / b) }
}

/// The running speed after one blend step towards `target`, `v + (target − v)·k·dt`
/// with `dt` in seconds (rounded towards zero), for every step length; like every
/// velocity it saturates at `±SPEED_LIMIT`.
pub open spec fn blend(v: int, target: int, dt: u64) -> int {
    clamp_speed(v + div_toward_zero((target - v) * (MOVEMENT_BLEND_RATE * dt), 1_000_000))
}

/// A move intent's horizontal component is at most one unit (in thousandths).
pub open spec fn action_ok(a: MovementAction) -> bool {
    a matches MovementAction::Move(d) ==> -1000 <= d.x <= 1000
}

pub open spec fn countdown(t: Option<u64>, dt: u64) -> Option<u64> {
    match t {
        Some(r) => if r > dt { Some((r - dt) as u64) } else { None },
        None => None,
    }
}

impl MovementController {
    pub open spec fn is_dashing(self) -> bool {
        self.state is Dash
    }

    pub open spec fn wf(self) -> bool {
        &&& -SPEED_LIMIT <= self.velocity.x <= SPEED_LIMIT
        &&& -SPEED_LIMIT <= self.velocity.y <= SPEED_LIMIT
        &&& (self.face_direction == 1 || self.face_direction == -1)
        &&& (self.is_dashing() ==> !self.grounded)
        &&& (self.is_dashing() ==> self.dashing_cooldown is None)
        &&& (self.coyote matches Some(r) ==> 0 < r <= COYOTE_WINDOW)
        &&& (self.dashing_cooldown matches Some(r) ==> 0 < r <= DASH_COOLDOWN)
        &&& (self.state matches PlayerMovementState::Jump(r) ==> r <= JUMP_DURATION)
        &&& (self.state matches PlayerMovementState::Dash(r) ==> 0 < r <= DASH_DURATION)
    }

    /// A freshly spawned player: idle, facing right, at rest, airborne until probed.
    pub fn new() -> (r: MovementController)
        ensures
            r.wf(),
            r == (MovementController {
                state: PlayerMovementState::Idle(false),
                face_direction: 1,
                velocity: Vec2 { x: 0, y: 0 },
                gravity_scale: CHARACTER_GRAVITY_SCALE,
                grounded: false,
                coyote: None,
                dashing_used: false,
                dashing_cooldown: None,
            }),
    {
        MovementController {
            state: PlayerMovementState::Idle(false),
            face_direction: 1,
            velocity: Vec2 { x: 0, y: 0 },
            gravity_scale: CHARACTER_GRAVITY_SCALE,
            grounded: false,
            coyote: None,
            dashing_used: false,
            dashing_cooldown: None,
        }
    }

    pub open spec fn move_spec(self, direction: Vec2, dt: u64) -> MovementController {
        if self.is_dashing() {
            self
        } else {
            MovementController {
                face_direction: if direction.x > 0 { 1i64 } else if direction.x < 0 { -1i64 } else { self.face_direction },
                velocity: Vec2 {
                    x: blend(self.velocity.x as int, direction.x * MOVEMENT_SPEED / 1000, dt) as i64,
                    y: self.velocity.y,
                },
                state: if self.state is Idle { PlayerMovementState::Run } else { self.state },
                ..self
            }
        }
    }

    /// Steers horizontally: ignored while dashing; otherwise faces the input's side and
    /// blends the horizontal velocity towards the input times the running speed, by
    /// the rate times the step's length (a step of more than a tenth of a second
    /// overshoots, as the formula does).
    pub fn move_toward(&mut self, direction: Vec2, dt: u64)
        requires
            old(self).wf(),
            -1000 <= direction.x <= 1000,
        ensures
            *final(self) == old(self).move_spec(direction, dt),
            final(self).wf(),
    {
        if let PlayerMovementState::Dash(_) = self.state {
            return;
        }
        if direction.x > 0 {
            self.face_direction = 1;
        } else if direction.x < 0 {
            self.face_direction = -1;
        }
        let target: i64 = direction.x * MOVEMENT_SPEED / 1000;
        assert(-MOVEMENT_SPEED <= target <= MOVEMENT_SPEED) by (nonlinear_arith)
            requires
                -1000 <= direction.x <= 1000,
                target == direction.x * MOVEMENT_SPEED / 1000,
        ;
        let v = self.velocity.x;
        let f: i128 = (dt as i128) * (MOVEMENT_BLEND_RATE as i128);
        let diff: i128 = (target as i128) - (v as i128);
        let mag: i128 = if diff >= 0 { diff } else { -diff };
        assert(0 <= mag * f <= 300_000_000_000_000_000_000_000_000_000) by (nonlinear_arith)
            requires
                0 <= mag <= 1_500_000_000,
                0 <= f <= 10 * 18_446_744_073_709_551_615,
        ;
        let step: i128 = mag * f / 1_000_000;
        assert(diff * f == (target - v) * (MOVEMENT_BLEND_RATE * dt)) by (nonlinear_arith)
            requires
                f == dt * MOVEMENT_BLEND_RATE,
                diff == target - v,
        ;
        assert(diff < 0 ==> (-diff) * f == -(diff * f)) by (nonlinear_arith);
        let raw: i128 = if diff >= 0 { (v as i128) + step } else { (v as i128) - step };
        let nv: i64 = if raw > SPEED_LIMIT as i128 {
            SPEED_LIMIT
        } else if raw < -(SPEED_LIMIT as i128) {
            -SPEED_LIMIT
        } else {
            raw as i64
        };
        self.velocity.x = nv;
        if let PlayerMovementState::Idle(_) = self.state {
            self.state = PlayerMovementState::Run;
        }
    }

    pub open spec fn jump_start_spec(self) -> MovementController {
        if self.is_dashing() || !(self.grounded || self.coyote is Some) {
            self
        } else {
            MovementController {
                grounded: false,
                coyote: None,
                state: PlayerMovementState::Jump(JUMP_DURATION),
                velocity: Vec2 { x: self.velocity.x, y: clamp_speed(self.velocity.y + JUMP_IMPULSE) as i64 },
                gravity_scale: JUMP_HANG_GRAVITY_SCALE,
                ..self
            }
        }
    }

    /// Starts a jump when standing or within the coyote window (and not dashing): leaves
    /// the ground, adds the jump impulse upwards and lowers gravity for the ascent.
    /// Otherwise nothing happens.
    pub fn jump_start(&mut self)
        requires
            old(self).wf(),
        ensures
            *final(self) == old(self).jump_start_spec(),
            final(self).wf(),
    {
        if let PlayerMovementState::Dash(_) = self.state {
            return;
        }
        if self.grounded || self.coyote.is_some() {
            self.grounded = false;
            self.coyote = None;
            self.state = PlayerMovementState::Jump(JUMP_DURATION);
            let vy = self.velocity.y + JUMP_IMPULSE;
            self.velocity.y = if vy > SPEED_LIMIT { SPEED_LIMIT } else { vy };
            self.gravity_scale = JUMP_HANG_GRAVITY_SCALE;
        }
    }

    pub open spec fn jump_end_spec(self) -> MovementController {
        if !self.grounded && self.velocity.y > 0 {
            MovementController {
                gravity_scale: CHARACTER_GRAVITY_SCALE,
                velocity: Vec2 { x: self.velocity.x, y: (self.velocity.y / 2) as i64 },
                ..self
            }
        } else {
            self
        }
    }

    /// Ends a jump's ascent early: while airborne and rising, restores gravity and halves
    /// the upward velocity, so that a short press gives a low jump.
    pub fn jump_end(&mut self)
        requires
            old(self).wf(),
        ensures
            *final(self) == old(self).jump_end_spec(),
            final(self).wf(),
    {
        if !self.grounded && self.velocity.y > 0 {
            self.gravity_scale = CHARACTER_GRAVITY_SCALE;
            self.velocity.y = self.velocity.y / 2;
        }
    }

    pub open spec fn dash_start_spec(self) -> MovementController {
        if self.is_dashing() || self.dashing_used || self.dashing_cooldown is Some {
            self
        } else {
            MovementController {
                velocity: Vec2 { x: (self.face_direction * MOVEMENT_SPEED * DASH_SPEED_MODIFIER) as i64, y: 0 },
                gravity_scale: 0,
                grounded: false,
                dashing_used: true,
                state: PlayerMovementState::Dash(DASH_DURATION),
                ..self
            }
        }
    }

    /// Dashes: unless already dashing, already dashed since last on the ground, or on
    /// cooldown, sets the horizontal velocity to the dash speed in the facing direction,
    /// stops vertical motion, switches gravity off and flies (no grounding) for the dash.
    pub fn dash_start(&mut self)
        requires
            old(self).wf(),
        ensures
            *final(self) == old(self).dash_start_spec(),
            final(self).wf(),
    {
        if let PlayerMovementState::Dash(_) = self.state {
            return;
        }
        if self.dashing_used || self.dashing_cooldown.is_some() {
            return;
        }
        self.velocity = Vec2 { x: self.face_direction * MOVEMENT_SPEED * DASH_SPEED_MODIFIER, y: 0 };
        self.gravity_scale = 0;
        self.grounded = false;
        self.dashing_used = true;
        self.state = PlayerMovementState::Dash(DASH_DURATION);
    }

    pub open spec fn dash_end_spec(self) -> MovementController {
        MovementController {
            gravity_scale: CHARACTER_GRAVITY_SCALE,
            velocity: Vec2 { x: div_toward_zero(self.velocity.x * 2, 5) as i64, y: self.velocity.y },
            state: PlayerMovementState::Jump(JUMP_DURATION),
            dashing_cooldown: Some(DASH_COOLDOWN),
            ..self
        }
    }

    /// Ends a dash: gravity comes back, the horizontal velocity keeps two fifths of its
    /// value (no abrupt stop), the player falls as after a jump, and the cooldown starts.
    pub fn dash_end(&mut self)
        requires
            old(self).wf(),
        ensures
            *final(self) == old(self).dash_end_spec(),
            final(self).wf(),
    {
        self.gravity_scale = CHARACTER_GRAVITY_SCALE;
        self.velocity.x = self.velocity.x * 2 / 5;
        self.state = PlayerMovementState::Jump(JUMP_DURATION);
        self.dashing_cooldown = Some(DASH_COOLDOWN);
    }

    /// A jump event: `true` starts a jump, `false` ends its ascent.
    pub fn handle_jump_event(&mut self, is_start: bool)
        requires
            old(self).wf(),
        ensures
            *final(self) == if is_start { old(self).jump_start_spec() } else { old(self).jump_end_spec() },
            final(self).wf(),
    {
        if is_start {
            self.jump_start();
        } else {
            self.jump_end();
        }
    }

    /// A dash event: `true` starts a dash, `false` ends it. While the player's swing is
    /// under way (`attacking`), a dash does not start.
    pub fn handle_dash_event(&mut self, is_start: bool, attacking: bool)
        requires
            old(self).wf(),
        ensures
            *final(self) == if is_start {
                if attacking { *old(self) } else { old(self).dash_start_spec() }
            } else {
                old(self).dash_end_spec()
            },
            final(self).wf(),
    {
        if is_start {
            if !attacking {
                self.dash_start();
            }
        } else {
            self.dash_end();
        }
    }

    pub open spec fn apply_spec(self, action: MovementAction, dt: u64, attacking: bool) -> MovementController {
        match action {
            MovementAction::Move(d) => self.move_spec(d, dt),
            MovementAction::JumpStart => self.jump_start_spec(),
            MovementAction::JumpEnd => self.jump_end_spec(),
            MovementAction::Dash => if attacking { self } else { self.dash_start_spec() },
        }
    }

    pub open spec fn apply_all(self, actions: Seq<MovementAction>, dt: u64, attacking: bool) -> MovementController
        decreases actions.len(),
    {
        if actions.len() == 0 {
            self
        } else {
            self.apply_all(actions.drop_last(), dt, attacking).apply_spec(actions.last(), dt, attacking)
        }
    }

    pub open spec fn actions_spec(self, actions: Seq<MovementAction>, dt: u64, attacking: bool) -> MovementController {
        if actions.len() == 0 && self.state == PlayerMovementState::Run {
            MovementController { state: PlayerMovementState::Idle(false), ..self }
        } else {
            self.apply_all(actions, dt, attacking)
        }
    }

    /// Applies one tick's movement intents in order; with none, a running player stops.
    /// While the player's swing is under way (`attacking`), dash intents are ignored.
    pub fn handle_actions(&mut self, actions: &Vec<MovementAction>, dt: u64, attacking: bool)
        requires
            old(self).wf(),
            forall|i: int| 0 <= i < actions.len() ==> action_ok(#[trigger] actions@[i]),
        ensures
            *final(self) == old(self).actions_spec(actions@, dt, attacking),
            final(self).wf(),
    {
        if actions.len() == 0 {
            if self.state == PlayerMovementState::Run {
                self.state = PlayerMovementState::Idle(false);
            }
            return;
        }
        let ghost start = *self;
        let mut i: usize = 0;
        while i < actions.len()
            invariant
                i <= actions.len(),
                actions.len() > 0,
                self.wf(),
                forall|j: int| 0 <= j < actions.len() ==> action_ok(#[trigger] actions@[j]),
                *self == start.apply_all(actions@.subrange(0, i as int), dt, attacking),
            decreases actions.len() - i,
        {
            proof {
                assert(actions@.subrange(0, i + 1).drop_last() =~= actions@.subrange(0, i as int));
            }
            match actions[i] {
                MovementAction::Move(d) => self.move_toward(d, dt),
                MovementAction::JumpStart => self.jump_start(),
                MovementAction::JumpEnd => self.jump_end(),
                MovementAction::Dash => {
                    if !attacking {
                        self.dash_start();
                    }
                },
            }
            i = i + 1;
        }
        assert(actions@.subrange(0, actions.len() as int) =~= actions@);
    }

    pub open spec fn tick_spec(self, dt: u64, ground_contact: bool) -> MovementController {
        let grounded = if self.is_dashing() { self.grounded } else { ground_contact };
        let s1 = MovementController {
            grounded,
            gravity_scale: if grounded { CHARACTER_GRAVITY_SCALE } else { self.gravity_scale },
            coyote: if grounded { Some(COYOTE_WINDOW) } else { countdown(self.coyote, dt) },
            dashing_used: if grounded { false } else { self.dashing_used },
            dashing_cooldown: countdown(self.dashing_cooldown, dt),
            ..self
        };
        match s1.state {
            PlayerMovementState::Dash(r) => if r > dt {
                MovementController { state: PlayerMovementState::Dash((r - dt) as u64), ..s1 }
            } else {
                s1.dash_end_spec()
            },
            PlayerMovementState::Jump(r) => {
                let r2: u64 = if r > dt { (r - dt) as u64 } else { 0 };
                let s2 = MovementController { state: PlayerMovementState::Jump(r2), ..s1 };
                let s3 = if r > 0 && r2 == 0 { s2.jump_end_spec() } else { s2 };
                if grounded {
                    MovementController { state: PlayerMovementState::Idle(false), ..s3 }
                } else {
                    s3
                }
            },
            _ => s1,
        }
    }

    /// Per-tick upkeep, given whether the ground probe found admissible ground. A flying
    /// (dashing) player keeps its grounded flag. On the ground: normal gravity, a full
    /// coyote window, and the dash is usable again; in the air the coyote window runs
    /// out. The dash cooldown runs out. A dash whose time is up ends; a jump whose
    /// ascent time is up ends its ascent, and a jump that touches the ground is over.
    pub fn tick(&mut self, dt: u64, ground_contact: bool)
        requires
            old(self).wf(),
        ensures
            *final(self) == old(self).tick_spec(dt, ground_contact),
            final(self).wf(),
    {
        if let PlayerMovementState::Dash(_) = self.state {
        } else {
            self.grounded = ground_contact;
        }
        if self.grounded {
            self.gravity_scale = CHARACTER_GRAVITY_SCALE;
            self.coyote = Some(COYOTE_WINDOW);
            self.dashing_used = false;
        } else {
            self.coyote = match self.coyote {
                Some(r) => if r > dt { Some(r - dt) } else { None },
                None => None,
            };
        }
        self.dashing_cooldown = match self.dashing_cooldown {
            Some(r) => if r > dt { Some(r - dt) } else { None },
            None => None,
        };
        match self.state {
            PlayerMovementState::Dash(r) => {
                if r > dt {
                    self.state = PlayerMovementState::Dash(r - dt);
                } else {
                    self.dash_end();
                }
            },
            PlayerMovementState::Jump(r) => {
                let r2: u64 = if r > dt { r - dt } else { 0 };
                self.state = PlayerMovementState::Jump(r2);
                if r > 0 && r2 == 0 {
                    self.jump_end();
                }
                if self.grounded {
                    self.state = PlayerMovementState::Idle(false);
                }
            },
            _ => {},
        }
    }

    /// Puts a player that fell out of the arena back above it, at rest and floating
    /// down slowly; returns the new position, or `None` when the player did not fall.
    pub fn fall_recovery(&mut self, position: Vec2) -> (r: Option<Vec2>)
        requires
            old(self).wf(),
        ensures
            final(self).wf(),
            position.y < FALL_RECOVERY_HEIGHT ==> r == Some(Vec2 { x: 0, y: 300_000 })
                && *final(self) == (MovementController {
                    velocity: Vec2 { x: old(self).velocity.x, y: 0 },
                    gravity_scale: JUMP_HANG_GRAVITY_SCALE,
                    ..*old(self)
                }),
            position.y >= FALL_RECOVERY_HEIGHT ==> r is None && *final(self) == *old(self),
    {
        if position.y < FALL_RECOVERY_HEIGHT {
            self.velocity.y = 0;
            self.gravity_scale = JUMP_HANG_GRAVITY_SCALE;
            Some(Vec2 { x: 0, y: 300_000 })
        } else {
            None
        }
    }
}

} // verus!
