use asad_core::attack::{wut_sound_to_play, AttackSound};
use asad_core::sound::{choose_variant, play_attack_sound};
use asad_core::geometry::Vec2;
use asad_core::script::{Enemy, ScriptEvent, ScriptEventQueue};

fn line(s: &str) -> ScriptEvent {
    ScriptEvent::Dialogue("Narrator".to_string(), s.to_string())
}

#[test]
fn script_waits_carry_over_and_spawns() {
    let mut q = ScriptEventQueue::new(vec![
        ScriptEvent::Wait(100),
        ScriptEvent::Spawn(Enemy::RedSlime, Vec2::new(-500_000, 100_000)),
        ScriptEvent::Wait(50),
        ScriptEvent::Spawn(Enemy::Boss, Vec2::new(0, 0)),
        ScriptEvent::WaitForSlimesDead,
        ScriptEvent::Halt,
    ]);
    let out = q.process_script_events(60, false, false);
    assert!(out.spawns.is_empty());
    assert_eq!(q.head, 0);
    assert_eq!(q.waited, 60);
    // 40 finishes the first wait, 10 more go to the second
    let out = q.process_script_events(50, true, false);
    assert_eq!(out.spawns, vec![(Enemy::RedSlime, Vec2::new(-500_000, 100_000))]);
    assert_eq!(q.head, 2);
    assert_eq!(q.waited, 10);
    let out = q.process_script_events(40, true, false);
    assert_eq!(out.spawns, vec![(Enemy::Boss, Vec2::new(0, 0))]);
    assert_eq!(q.head, 4);
    let out = q.process_script_events(40, false, false);
    assert!(out.spawns.is_empty());
    assert_eq!(q.head, 5);
    assert!(!out.end_game);
    // the final halt stays put
    q.process_script_events(40, false, false);
    assert_eq!(q.head, 5);
}

#[test]
fn script_dialogue_blocks_until_progressed() {
    let mut q = ScriptEventQueue::new(vec![
        line("one"),
        line("two"),
        ScriptEvent::EndTheGame,
        ScriptEvent::Halt,
    ]);
    let out = q.process_script_events(10, false, false);
    assert!(out.show_dialogue);
    assert_eq!(q.head, 0);
    assert_eq!(q.progress_dialogue(), Some(false));
    assert_eq!(q.head, 1);
    assert_eq!(q.progress_dialogue(), Some(true));
    assert_eq!(q.head, 2);
    assert_eq!(q.progress_dialogue(), None);
    let out = q.process_script_events(10, false, false);
    assert!(out.end_game);
    assert!(!out.show_dialogue);
    assert_eq!(q.head, 3);
}

#[test]
fn script_waits_for_boss() {
    let mut q = ScriptEventQueue::new(vec![ScriptEvent::WaitForBossDead, ScriptEvent::EndTheGame]);
    let out = q.process_script_events(10, false, true);
    assert!(!out.end_game);
    let out = q.process_script_events(10, false, false);
    assert!(out.end_game);
    assert_eq!(q.head, 2);
    let out = q.process_script_events(10, false, false);
    assert!(!out.end_game);
}

#[test]
fn attack_sound_pitch() {
    assert_eq!(wut_sound_to_play(2_000_000), 7);
    assert_eq!(wut_sound_to_play(1_000_000), 7);
    assert_eq!(wut_sound_to_play(999_999), 6);
    assert_eq!(wut_sound_to_play(250_000), 5);
    assert_eq!(wut_sound_to_play(125_000), 4);
    assert_eq!(wut_sound_to_play(62_000), 3);
    assert_eq!(wut_sound_to_play(50_000), 2);
    assert_eq!(wut_sound_to_play(16_000), 1);
    assert_eq!(wut_sound_to_play(7_999), 0);
}

#[test]
fn attack_sound_clips() {
    assert_eq!(play_attack_sound(AttackSound::Hit(600_000), 3), Some(6));
    assert_eq!(play_attack_sound(AttackSound::Miss(20_000), 3), Some(1));
    assert_eq!(play_attack_sound(AttackSound::Slash, 0), None);
    for _ in 0..50 {
        let i = play_attack_sound(AttackSound::Slash, 3).unwrap();
        assert!(i < 3);
    }
    assert_eq!(choose_variant(0), None);
    assert_eq!(choose_variant(1), Some(0));
    // both variants come up
    let picks: Vec<usize> = (0..200).map(|_| choose_variant(2).unwrap()).collect();
    assert!(picks.contains(&0) && picks.contains(&1));
}
