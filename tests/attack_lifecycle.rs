use bottomless_pit::{Attack, AttackState, AttackType, FrameData, HitBox};

fn sample_attack() -> Attack {
    let base = HitBox::new(0, 0, 30, 10);
    Attack::new(base, 4, FrameData::new(3, 2, 4, -2, 1)).unwrap()
}

fn expected_state(tick: usize) -> AttackState {
    match tick {
        1..=3 => AttackState::Startup,
        4..=5 => AttackState::Active,
        _ => AttackState::Recovery,
    }
}

#[test]
fn frame_data_keeps_fields() {
    let fd = FrameData::new(3, 2, 4, -2, 1);
    assert_eq!(fd.startup, 3);
    assert_eq!(fd.active, 2);
    assert_eq!(fd.recovery, 4);
    assert_eq!(fd.on_block, -2);
    assert_eq!(fd.on_hit, 1);
    assert_eq!(fd.total(), 9);
    assert!(fd.is_valid());
}

#[test]
fn frame_data_validation() {
    assert!(!FrameData::new(0, 0, 0, 0, 0).is_valid());
    assert!(!FrameData::new(-1, 2, 2, 0, 0).is_valid());
    assert!(!FrameData::new(20000, 20000, 1, 0, 0).is_valid());
    assert!(FrameData::new(0, 0, 1, 0, 0).is_valid());
    let base = HitBox::new(0, 0, 1, 1);
    assert!(Attack::new(base, 1, FrameData::new(0, 0, 0, 0, 0)).is_none());
    assert!(Attack::new(base, 0, FrameData::new(1, 1, 1, 0, 0)).is_none());
    assert!(Attack::new(base, 1, FrameData::new(1, 1, 1, 0, 0)).is_some());
}

#[test]
fn phases_follow_thresholds() {
    let fd = FrameData::new(3, 2, 4, 0, 0);
    assert_eq!(fd.phase_at(0), AttackState::Startup);
    assert_eq!(fd.phase_at(3), AttackState::Startup);
    assert_eq!(fd.phase_at(4), AttackState::Active);
    assert_eq!(fd.phase_at(5), AttackState::Active);
    assert_eq!(fd.phase_at(6), AttackState::Recovery);
}

#[test]
fn attack_cycle_states() {
    let mut attack = sample_attack();
    assert_eq!(attack.state(), AttackState::Startup);
    for tick in 1..=9usize {
        attack.shift_actual(100, 50);
        let done = attack.update();
        assert_eq!(attack.state(), expected_state(tick));
        assert_eq!(done, tick == 9);
        assert_eq!(attack.is_hitbox_active(), (4..=5).contains(&tick));
    }
    assert_eq!(attack.frame_count(), 0);
    assert_eq!(attack.animation_frame(), 0);
    assert_eq!(attack.base_hitbox(), HitBox::new(0, 0, 30, 10));
    attack.reset_actual();
    assert_eq!(attack.current_hitbox(), None);
}

#[test]
fn completion_resets_hitbox() {
    let mut attack = sample_attack();
    for _ in 0..8 {
        assert!(!attack.update());
    }
    attack.shift_actual(7, 7);
    assert!(attack.update());
    assert_eq!(attack.frame_count(), 0);
    // The attack is at rest: one more tick starts a new cycle.
    attack.update();
    assert_eq!(attack.state(), AttackState::Startup);
    assert_eq!(attack.frame_count(), 1);
}

#[test]
fn restart_repeats_cycle() {
    let mut attack = sample_attack();
    let mut first = Vec::new();
    for _ in 0..9 {
        let done = attack.update();
        first.push((attack.state(), done, attack.frame_count()));
    }
    let mut second = Vec::new();
    for _ in 0..9 {
        let done = attack.update();
        second.push((attack.state(), done, attack.frame_count()));
    }
    assert_eq!(first, second);
}

#[test]
fn shift_during_startup_not_sticky() {
    let mut attack = sample_attack();
    attack.update();
    attack.shift_actual(100, 50);
    attack.update();
    attack.update();
    assert_eq!(attack.state(), AttackState::Startup);
    attack.update();
    assert_eq!(attack.state(), AttackState::Active);
    assert_eq!(attack.current_hitbox(), Some(HitBox::new(0, 0, 30, 10)));
    attack.shift_actual(100, 50);
    assert_eq!(attack.current_hitbox(), Some(HitBox::new(100, 50, 30, 10)));
    attack.update();
    assert_eq!(attack.current_hitbox(), Some(HitBox::new(100, 50, 30, 10)));
}

#[test]
fn shift_is_absolute() {
    let mut attack = sample_attack();
    attack.shift_actual(10, 20);
    attack.shift_actual(10, 20);
    attack.reset_actual();
    attack.shift_actual(-5, 3);
    for _ in 0..3 {
        attack.update();
    }
    attack.update();
    attack.shift_actual(10, 20);
    assert_eq!(attack.current_hitbox(), Some(HitBox::new(10, 20, 30, 10)));
    assert_eq!(HitBox::new(1, 2, 3, 4).translate(-1, 5), HitBox::new(0, 7, 3, 4));
}

#[test]
fn animation_cursor_wraps() {
    let mut attack = sample_attack();
    let mut seen = Vec::new();
    for _ in 0..6 {
        attack.update();
        seen.push(attack.animation_frame());
    }
    assert_eq!(seen, vec![1, 2, 3, 0, 1, 2]);
}

#[test]
fn zero_active_window() {
    let base = HitBox::new(0, 0, 1, 1);
    let mut attack = Attack::new(base, 1, FrameData::new(1, 0, 2, 0, 0)).unwrap();
    assert!(!attack.update());
    assert_eq!(attack.state(), AttackState::Startup);
    assert!(!attack.update());
    assert_eq!(attack.state(), AttackState::Recovery);
    assert!(attack.update());
}

#[test]
fn cancel_returns_to_rest() {
    let mut attack = sample_attack();
    for _ in 0..4 {
        attack.update();
    }
    attack.shift_actual(3, 3);
    attack.reset();
    assert_eq!(attack.state(), AttackState::Startup);
    assert_eq!(attack.frame_count(), 0);
    assert_eq!(attack.animation_frame(), 0);
    assert_eq!(attack.frame_data(), FrameData::new(3, 2, 4, -2, 1));
}

#[test]
fn attack_type_index() {
    assert_eq!(AttackType::Slash.into_uszie(), 0);
    assert_eq!(AttackType::Kick.into_uszie(), 1);
}
