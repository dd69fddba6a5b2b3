use asad_core::camera::camera_target;
use asad_core::geometry::Vec2;
use asad_core::input::input_to_direction;
use asad_core::movement::{
    MovementAction, MovementController, PlayerMovementState, CHARACTER_GRAVITY_SCALE,
    COYOTE_WINDOW, DASH_COOLDOWN, DASH_DURATION, JUMP_DURATION, JUMP_HANG_GRAVITY_SCALE,
};
use asad_core::physics::{is_walkable, update_grounded};

fn grounded_player() -> MovementController {
    let mut c = MovementController::new();
    c.tick(16_000, true);
    c
}

#[test]
fn spawn_state() {
    let c = MovementController::new();
    assert_eq!(c.state, PlayerMovementState::Idle(false));
    assert_eq!(c.face_direction, 1);
    assert_eq!(c.gravity_scale, CHARACTER_GRAVITY_SCALE);
}

#[test]
fn grounded_tick_fills_coyote() {
    let c = grounded_player();
    assert!(c.grounded);
    assert_eq!(c.coyote, Some(COYOTE_WINDOW));
}

#[test]
fn move_blends_toward_target() {
    let mut c = grounded_player();
    c.move_toward(Vec2::new(1000, 0), 50_000);
    // v += (500_000 - 0) * 10 * 0.05
    assert_eq!(c.velocity.x, 250_000);
    assert_eq!(c.state, PlayerMovementState::Run);
    c.move_toward(Vec2::new(-1000, 0), 50_000);
    // v += (-500_000 - 250_000) * 0.5
    assert_eq!(c.velocity.x, -125_000);
    assert_eq!(c.face_direction, -1);
    // a long step overshoots, as the formula does: -125 + (500 + 125) * 10 * 0.2
    c.move_toward(Vec2::new(1000, 0), 200_000);
    assert_eq!(c.velocity.x, 1_125_000);
}

#[test]
fn move_from_rest_with_long_step() {
    let mut c = grounded_player();
    // 0 + (500 - 0) * 10 * 0.2 = 1000 units/s
    c.move_toward(Vec2::new(1000, 0), 200_000);
    assert_eq!(c.velocity.x, 1_000_000);
    // a tenth of a second arrives exactly
    let mut d = grounded_player();
    d.move_toward(Vec2::new(-1000, 0), 100_000);
    assert_eq!(d.velocity.x, -500_000);
}

#[test]
fn no_input_stops_running() {
    let mut c = grounded_player();
    c.handle_actions(&vec![MovementAction::Move(Vec2::new(1000, 0))], 16_000, false);
    assert_eq!(c.state, PlayerMovementState::Run);
    c.handle_actions(&vec![], 16_000, false);
    assert_eq!(c.state, PlayerMovementState::Idle(false));
}

#[test]
fn grounded_jump() {
    let mut c = grounded_player();
    c.jump_start();
    assert_eq!(c.state, PlayerMovementState::Jump(JUMP_DURATION));
    assert_eq!(c.velocity.y, 800_000);
    assert_eq!(c.gravity_scale, JUMP_HANG_GRAVITY_SCALE);
    assert!(!c.grounded);
    assert_eq!(c.coyote, None);
}

#[test]
fn coyote_jump_within_window() {
    let mut c = grounded_player();
    c.tick(100_000, false);
    c.tick(99_999, false);
    assert_eq!(c.coyote, Some(1));
    c.jump_start();
    assert_eq!(c.state, PlayerMovementState::Jump(JUMP_DURATION));
    assert_eq!(c.velocity.y, 800_000);
}

#[test]
fn coyote_jump_after_window_is_ignored() {
    let mut c = grounded_player();
    c.tick(100_000, false);
    c.tick(100_001, false);
    assert_eq!(c.coyote, None);
    let before = c;
    c.jump_start();
    assert_eq!(c, before);
}

#[test]
fn jump_end_halves_rising_velocity() {
    let mut c = grounded_player();
    c.jump_start();
    c.tick(16_000, false);
    c.jump_end();
    assert_eq!(c.velocity.y, 400_000);
    assert_eq!(c.gravity_scale, CHARACTER_GRAVITY_SCALE);
    // falling: nothing more
    c.velocity.y = -10;
    let before = c;
    c.jump_end();
    assert_eq!(c, before);
}

#[test]
fn jump_timer_ends_ascent_and_landing_idles() {
    let mut c = grounded_player();
    c.jump_start();
    c.tick(JUMP_DURATION, false);
    assert_eq!(c.state, PlayerMovementState::Jump(0));
    assert_eq!(c.velocity.y, 400_000);
    c.tick(16_000, true);
    assert_eq!(c.state, PlayerMovementState::Idle(false));
}

#[test]
fn dash_single_use_until_grounded() {
    let mut c = grounded_player();
    c.dash_start();
    assert_eq!(c.state, PlayerMovementState::Dash(DASH_DURATION));
    assert_eq!(c.velocity, Vec2::new(30_000_000, 0));
    assert_eq!(c.gravity_scale, 0);
    assert!(c.dashing_used);
    let after_first = c;
    c.dash_start();
    assert_eq!(c, after_first);
    // the dash ends in the air, the cooldown runs out, still no second dash
    c.tick(DASH_DURATION, true);
    assert_eq!(c.state, PlayerMovementState::Jump(JUMP_DURATION));
    assert_eq!(c.velocity.x, 12_000_000);
    assert_eq!(c.dashing_cooldown, Some(DASH_COOLDOWN));
    c.tick(DASH_COOLDOWN, false);
    assert_eq!(c.dashing_cooldown, None);
    let airborne = c;
    c.dash_start();
    assert_eq!(c, airborne);
    // back on the ground, dashing works again
    c.tick(16_000, true);
    c.dash_start();
    assert!(c.state == PlayerMovementState::Dash(DASH_DURATION));
}

#[test]
fn no_dash_during_swing() {
    let mut c = grounded_player();
    let before = c;
    c.handle_actions(&vec![MovementAction::Dash], 16_000, true);
    assert_eq!(c, before);
    c.handle_actions(&vec![MovementAction::Dash], 16_000, false);
    assert_eq!(c.state, PlayerMovementState::Dash(DASH_DURATION));
}

#[test]
fn dash_event_during_swing_is_ignored() {
    let mut c = grounded_player();
    let before = c;
    c.handle_dash_event(true, true);
    assert_eq!(c, before);
    c.handle_dash_event(true, false);
    assert_eq!(c.state, PlayerMovementState::Dash(DASH_DURATION));
    c.handle_dash_event(false, false);
    assert_eq!(c.state, PlayerMovementState::Jump(JUMP_DURATION));
    assert_eq!(c.dashing_cooldown, Some(DASH_COOLDOWN));
}

#[test]
fn dash_blocks_move_and_jump() {
    let mut c = grounded_player();
    c.dash_start();
    let d = c;
    c.move_toward(Vec2::new(-1000, 0), 16_000);
    c.jump_start();
    assert_eq!(c, d);
}

#[test]
fn fall_recovery_resets() {
    let mut c = grounded_player();
    c.velocity.y = -900_000;
    assert_eq!(c.fall_recovery(Vec2::new(5, -1_500_001)), Some(Vec2::new(0, 300_000)));
    assert_eq!(c.velocity.y, 0);
    assert_eq!(c.gravity_scale, JUMP_HANG_GRAVITY_SCALE);
    assert_eq!(c.fall_recovery(Vec2::new(5, -1_500_000)), None);
}

#[test]
fn input_directions() {
    assert_eq!(input_to_direction(false, false, false, false), None);
    assert_eq!(input_to_direction(true, true, false, false), None);
    assert_eq!(input_to_direction(false, true, false, false), Some(Vec2::new(1000, 0)));
    assert_eq!(input_to_direction(true, false, true, false), Some(Vec2::new(-707, 707)));
    assert_eq!(input_to_direction(false, false, false, true), Some(Vec2::new(0, -1000)));
}

#[test]
fn ground_probe_slope_limit() {
    assert!(is_walkable(Vec2::new(0, 1000)));
    // 30 degrees exactly: (sin 30, cos 30) scaled as (1, sqrt 3)
    assert!(is_walkable(Vec2::new(1000, 1733)));
    assert!(!is_walkable(Vec2::new(1000, 1732)));
    assert!(!is_walkable(Vec2::new(0, -1000)));
    assert!(update_grounded(&vec![Vec2::new(1000, 0), Vec2::new(-100, 1000)]));
    assert!(!update_grounded(&vec![Vec2::new(1000, 1000)]));
    assert!(!update_grounded(&vec![]));
}

#[test]
fn camera_stays_in_arena() {
    assert_eq!(camera_target(Vec2::new(0, 0)), Vec2::new(0, 0));
    assert_eq!(camera_target(Vec2::new(1_000_000, -1_000_000)), Vec2::new(290_000, -120_000));
    assert_eq!(camera_target(Vec2::new(-300_000, 200_000)), Vec2::new(-290_000, 160_000));
}
