use asad_core::attack::{
    attack_handler, player_attack_direction, swing_event, update_weapon_length, Attack,
    AttackPhase, AttackPosition, HitWindow, DoAttackEvent, INITIAL_ATTACK_DELAY,
    INITIAL_EXTEND_SCALE, MINIMUM_ATTACK_DELAY, MINIMUM_EXTEND_SCALE,
};
use asad_core::geometry::Vec2;
use asad_core::timer::Timer;

fn v(x: i64, y: i64) -> Vec2 {
    Vec2::new(x, y)
}

#[test]
fn end_to_end_attack_chain() {
    let pos = v(10_000, 20_000);
    let dir = v(1000, 0);
    // Idle player presses attack once.
    let (a, w) = attack_handler(None, true, 16_000, pos, dir);
    let a = a.unwrap();
    assert_eq!(w, HitWindow::Unchanged);
    assert_eq!(a.phase, AttackPhase::Reacting(Timer::new(2_000_000)));
    assert_eq!(a.attack_delay, 2_000_000);
    assert_eq!(a.extend_scale, 8000);
    // 2.0 s pass with no input: the swing begins and the hit window opens.
    let (a, w) = attack_handler(Some(a), false, 2_000_000, pos, dir);
    let mut a = a.unwrap();
    assert_eq!(w, HitWindow::Enable);
    assert_eq!(
        a.phase,
        AttackPhase::Attacking { anchor: pos, direction: dir, hit_delay_elapsed: false }
    );
    // The weapon nears, then reaches its pose, with a hit.
    assert!(!a.do_attack(DoAttackEvent { in_attack_delay: false }, true));
    assert!(a.do_attack(DoAttackEvent { in_attack_delay: true }, true));
    assert_eq!(a.extend_scale, 6400);
    assert_eq!(a.attack_delay, 1_600_000);
    assert_eq!(a.phase, AttackPhase::Ready(Timer::new(2_000_000)));
    assert_eq!(a.position, AttackPosition::Down);
    // 2.0 s with no input: miss fury and cooling.
    let (a, w) = attack_handler(Some(a), false, 2_000_000, pos, dir);
    let a = a.unwrap();
    assert_eq!(w, HitWindow::Disable);
    assert_eq!(a.attack_delay, 1_920_000);
    assert_eq!(a.extend_scale, 7680);
    assert_eq!(a.phase, AttackPhase::Cooling(Timer::new(2_000_000)));
    // 2.0 s more: the component is gone.
    let (a, w) = attack_handler(Some(a), false, 2_000_000, pos, dir);
    assert!(a.is_none());
    assert_eq!(w, HitWindow::Unchanged);
}

#[test]
fn idle_without_input_stays_idle() {
    let (a, w) = attack_handler(None, false, 16_000, v(0, 0), v(1000, 0));
    assert!(a.is_none());
    assert_eq!(w, HitWindow::Unchanged);
}

#[test]
fn reacting_counts_down_before_swing() {
    let a = Attack::default();
    let (a, w) = attack_handler(Some(a), false, 500_000, v(0, 0), v(1000, 0));
    let a = a.unwrap();
    assert_eq!(w, HitWindow::Unchanged);
    assert_eq!(
        a.phase,
        AttackPhase::Reacting(Timer { duration: 2_000_000, elapsed: 500_000, just_finished: false })
    );
}

#[test]
fn ready_input_reacts_with_current_delay() {
    let mut a = Attack::default();
    a.phase = AttackPhase::Attacking { anchor: v(0, 0), direction: v(1000, 0), hit_delay_elapsed: true };
    assert!(a.do_attack(DoAttackEvent { in_attack_delay: true }, true));
    let (a, w) = attack_handler(Some(a), true, 100_000, v(0, 0), v(1000, 0));
    let a = a.unwrap();
    assert_eq!(w, HitWindow::Disable);
    assert_eq!(a.phase, AttackPhase::Reacting(Timer::new(1_600_000)));
}

#[test]
fn cooling_input_resumes_chain() {
    let mut a = Attack::default();
    a.phase = AttackPhase::Attacking { anchor: v(0, 0), direction: v(1000, 0), hit_delay_elapsed: true };
    assert!(a.do_attack(DoAttackEvent { in_attack_delay: true }, false));
    assert_eq!(a.phase, AttackPhase::Cooling(Timer::new(2_000_000)));
    let (a, w) = attack_handler(Some(a), true, 100_000, v(0, 0), v(1000, 0));
    let a = a.unwrap();
    assert_eq!(w, HitWindow::Unchanged);
    assert_eq!(a.phase, AttackPhase::Reacting(Timer::new(2_000_000)));
}

#[test]
fn miss_keeps_side_and_penalises() {
    let mut a = Attack::new(1_000_000, 4000);
    a.phase = AttackPhase::Attacking { anchor: v(0, 0), direction: v(1000, 0), hit_delay_elapsed: true };
    assert!(a.do_attack(DoAttackEvent { in_attack_delay: true }, false));
    assert_eq!(a.position, AttackPosition::Up);
    assert_eq!(a.attack_delay, 1_200_000);
    assert_eq!(a.extend_scale, 4800);
}

#[test]
fn swing_event_outside_swing_does_nothing() {
    let mut a = Attack::default();
    let before = a;
    assert!(!a.do_attack(DoAttackEvent { in_attack_delay: true }, true));
    assert_eq!(a, before);
}

#[test]
fn hits_alternate_sides() {
    let mut a = Attack::default();
    let mut sides = Vec::new();
    for _ in 0..4 {
        a.phase = AttackPhase::Attacking { anchor: v(0, 0), direction: v(1000, 0), hit_delay_elapsed: true };
        assert!(a.do_attack(DoAttackEvent { in_attack_delay: true }, true));
        sides.push(a.position);
    }
    assert_eq!(
        sides,
        vec![AttackPosition::Down, AttackPosition::Up, AttackPosition::Down, AttackPosition::Up]
    );
}

#[test]
fn fury_bounds_and_convergence() {
    let mut a = Attack::default();
    for _ in 0..200 {
        a.update_fury(true);
        assert!(a.attack_delay >= MINIMUM_ATTACK_DELAY && a.attack_delay <= INITIAL_ATTACK_DELAY);
        assert!(a.extend_scale >= MINIMUM_EXTEND_SCALE && a.extend_scale <= INITIAL_EXTEND_SCALE);
    }
    assert_eq!(a.attack_delay, MINIMUM_ATTACK_DELAY);
    assert_eq!(a.extend_scale, MINIMUM_EXTEND_SCALE);
    for _ in 0..200 {
        a.update_fury(false);
        assert!(a.attack_delay >= MINIMUM_ATTACK_DELAY && a.attack_delay <= INITIAL_ATTACK_DELAY);
        assert!(a.extend_scale >= MINIMUM_EXTEND_SCALE && a.extend_scale <= INITIAL_EXTEND_SCALE);
    }
    assert_eq!(a.attack_delay, INITIAL_ATTACK_DELAY);
    assert_eq!(a.extend_scale, INITIAL_EXTEND_SCALE);
}

#[test]
fn fury_floor_clamp() {
    let mut a = Attack::new(60_000, 1100);
    a.update_fury(true);
    assert_eq!(a.attack_delay, 50_000);
    assert_eq!(a.extend_scale, 1000);
}

#[test]
fn phase_finished_reports_timer_or_swing() {
    let t = Timer { duration: 10, elapsed: 10, just_finished: true };
    assert!(AttackPhase::Ready(t).finished(false));
    assert!(!AttackPhase::Cooling(Timer::new(10)).finished(true));
    let swing = AttackPhase::Attacking { anchor: v(0, 0), direction: v(0, 1000), hit_delay_elapsed: false };
    assert!(swing.finished(true));
    assert!(!swing.finished(false));
}

#[test]
fn phase_tick_leaves_swing_alone() {
    let mut p = AttackPhase::Attacking { anchor: v(1, 2), direction: v(0, 1000), hit_delay_elapsed: false };
    let before = p;
    p.tick(1_000_000);
    assert_eq!(p, before);
    let mut c = AttackPhase::new_cooling_timer();
    c.tick(3_000_000);
    assert_eq!(c, AttackPhase::Cooling(Timer { duration: 2_000_000, elapsed: 2_000_000, just_finished: true }));
    c.tick(1);
    assert_eq!(c, AttackPhase::Cooling(Timer { duration: 2_000_000, elapsed: 2_000_000, just_finished: false }));
    assert_eq!(AttackPhase::new_ready_timer(), AttackPhase::Ready(Timer::new(2_000_000)));
    assert_eq!(AttackPhase::default(), AttackPhase::Reacting(Timer::new(2_000_000)));
}

#[test]
fn attack_geometry_offsets() {
    let up = AttackPosition::Up;
    let down = AttackPosition::Down;
    assert_eq!(up.get_translate(v(1000, 0)), v(-60_000, -47_000));
    assert_eq!(down.get_translate(v(1000, 0)), v(-60_000, 63_000));
    assert_eq!(up.get_translate(v(-1000, 0)), v(60_000, -47_000));
    assert_eq!(up.get_translate(v(0, 1000)), v(30_000, 10_000));
    assert_eq!(down.get_translate(v(0, -1000)), v(-40_000, -10_000));
    assert_eq!(up.get_next(), down);
    assert_eq!(down.get_next(), up);
}

#[test]
fn attack_geometry_mirror_table() {
    let up = AttackPosition::Up;
    let down = AttackPosition::Down;
    assert_eq!(up.get_scale(v(0, -1000)), 1);
    assert_eq!(down.get_scale(v(0, 1000)), 1);
    assert_eq!(down.get_scale(v(1000, 0)), 1);
    assert_eq!(up.get_scale(v(-1000, 0)), 1);
    assert_eq!(up.get_scale(v(0, 1000)), -1);
    assert_eq!(down.get_scale(v(0, -1000)), -1);
    assert_eq!(up.get_scale(v(1000, 0)), -1);
    assert_eq!(down.get_scale(v(-1000, 0)), -1);
}

#[test]
fn attack_direction_precedence() {
    let right = v(1000, 0);
    // up wins over everything
    assert_eq!(player_attack_direction(right, &vec![v(-707, 707)], true, false), v(0, 1000));
    // down only while airborne
    assert_eq!(player_attack_direction(right, &vec![v(0, -1000)], false, false), v(0, -1000));
    assert_eq!(player_attack_direction(right, &vec![v(707, -707)], true, false), right);
    // left, and the last input wins
    assert_eq!(player_attack_direction(right, &vec![v(-1000, 0)], true, false), v(-1000, 0));
    assert_eq!(player_attack_direction(right, &vec![v(-1000, 0), v(1000, 0)], true, false), right);
    assert_eq!(player_attack_direction(v(0, 1000), &vec![], true, false), v(0, 1000));
    assert_eq!(player_attack_direction(right, &vec![v(0, 0)], true, false), right);
    // ignored while dashing
    assert_eq!(player_attack_direction(right, &vec![v(0, 1000)], false, true), right);
}

#[test]
fn swing_progress_events() {
    // Heading to the Down pose to the right: anchor + (-60, 63).
    let anchor = v(0, 0);
    let dir = v(1000, 0);
    let target = v(-60_000, 63_000);
    assert_eq!(swing_event(target, anchor, dir, AttackPosition::Up, false), Some(DoAttackEvent { in_attack_delay: false }));
    assert_eq!(swing_event(target, anchor, dir, AttackPosition::Up, true), Some(DoAttackEvent { in_attack_delay: true }));
    assert_eq!(swing_event(v(-60_000, 63_999), anchor, dir, AttackPosition::Up, true), Some(DoAttackEvent { in_attack_delay: true }));
    assert_eq!(swing_event(v(-60_000, 64_000), anchor, dir, AttackPosition::Up, true), None);
    assert_eq!(swing_event(v(30_000, 63_000), anchor, dir, AttackPosition::Up, false), Some(DoAttackEvent { in_attack_delay: false }));
    assert_eq!(swing_event(v(40_000, 63_000), anchor, dir, AttackPosition::Up, false), None);
}

#[test]
fn weapon_length_layout() {
    let idle = update_weapon_length(None);
    assert_eq!(idle.extend_y, 900_000);
    assert_eq!(idle.extend_scale, 1000);
    assert_eq!(idle.head_y, 900_000 + 604_000 - 551_000 - 1000);
    let full = update_weapon_length(Some(Attack::default()));
    assert_eq!(full.extend_scale, 8000);
    assert_eq!(full.head_y, 900_000 + 604 * 8000 - 551_000 - 1000);
}

#[test]
fn timer_once_semantics() {
    let mut t = Timer::new(100);
    t.tick(40);
    assert_eq!(t, Timer { duration: 100, elapsed: 40, just_finished: false });
    assert!(!t.finished());
    t.tick(70);
    assert_eq!(t, Timer { duration: 100, elapsed: 100, just_finished: true });
    assert!(t.finished());
    t.tick(0);
    assert!(!t.just_finished);
    // a timer of no length is over from the start
    let mut z = Timer::new(0);
    assert!(z.finished());
    z.tick(5);
    assert!(!z.just_finished);
}

#[test]
fn fury_seventeen_hits_reach_floor() {
    let mut a = Attack::default();
    for _ in 0..16 {
        a.update_fury(true);
    }
    assert!(a.attack_delay > MINIMUM_ATTACK_DELAY);
    a.update_fury(true);
    assert_eq!(a.attack_delay, MINIMUM_ATTACK_DELAY);
    assert_eq!(a.extend_scale, MINIMUM_EXTEND_SCALE);
}

#[test]
fn fury_twenty_one_misses_reach_ceiling() {
    let mut a = Attack::new(MINIMUM_ATTACK_DELAY, MINIMUM_EXTEND_SCALE);
    for _ in 0..20 {
        a.update_fury(false);
    }
    assert!(a.attack_delay < INITIAL_ATTACK_DELAY);
    a.update_fury(false);
    assert_eq!(a.attack_delay, INITIAL_ATTACK_DELAY);
    assert_eq!(a.extend_scale, INITIAL_EXTEND_SCALE);
}

#[test]
fn attack_chain_with_frame_ticks() {
    let pos = v(0, 0);
    let dir = v(-1000, 0);
    let (mut a, _) = attack_handler(None, true, 16_000, pos, dir);
    // 125 ticks of 16 ms make exactly 2.0 s: the swing starts on the last one
    for i in 0..125 {
        let (next, w) = attack_handler(a, false, 16_000, pos, dir);
        a = next;
        if i < 124 {
            assert_eq!(w, HitWindow::Unchanged);
            assert!(matches!(a.unwrap().phase, AttackPhase::Reacting(_)));
        } else {
            assert_eq!(w, HitWindow::Enable);
        }
    }
    let mut att = a.unwrap();
    assert!(att.do_attack(DoAttackEvent { in_attack_delay: true }, true));
    assert_eq!((att.attack_delay, att.extend_scale), (1_600_000, 6400));
    let mut a = Some(att);
    for i in 0..125 {
        let (next, w) = attack_handler(a, false, 16_000, pos, dir);
        assert_eq!(w, HitWindow::Disable);
        a = next;
        if i == 124 {
            let c = a.unwrap();
            assert_eq!(c.phase, AttackPhase::Cooling(Timer::new(2_000_000)));
            assert_eq!((c.attack_delay, c.extend_scale), (1_920_000, 7680));
        }
    }
    for _ in 0..125 {
        let (next, _) = attack_handler(a, false, 16_000, pos, dir);
        a = next;
    }
    assert!(a.is_none());
}
