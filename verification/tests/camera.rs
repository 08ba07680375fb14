use arena_ai::camera::{camera_mode_label, cycle_camera_mode, needs_manual_switch, CameraMode};

#[test]
fn cycle_tours_every_combatant_then_manual_then_center() {
    let combatants = vec![11u64, 4, 30];
    let mut mode = CameraMode::FollowCenter;
    let mut seen = Vec::new();
    for _ in 0..5 {
        mode = cycle_camera_mode(mode, &combatants);
        seen.push(mode);
    }
    assert_eq!(
        seen,
        vec![
            CameraMode::FollowCombatant(11),
            CameraMode::FollowCombatant(4),
            CameraMode::FollowCombatant(30),
            CameraMode::Manual,
            CameraMode::FollowCenter,
        ]
    );
}

#[test]
fn cycle_with_no_combatants_or_a_vanished_one() {
    assert_eq!(cycle_camera_mode(CameraMode::FollowCenter, &vec![]), CameraMode::FollowCenter);
    assert_eq!(cycle_camera_mode(CameraMode::FollowCombatant(99), &vec![1, 2]), CameraMode::Manual);
    assert_eq!(cycle_camera_mode(CameraMode::Manual, &vec![1, 2]), CameraMode::FollowCenter);
}

#[test]
fn manual_switch_only_from_automatic_modes() {
    assert!(needs_manual_switch(CameraMode::FollowCenter, true, false));
    assert!(needs_manual_switch(CameraMode::FollowCombatant(3), false, true));
    assert!(!needs_manual_switch(CameraMode::Manual, true, true));
    assert!(!needs_manual_switch(CameraMode::FollowCenter, false, false));
}

#[test]
fn labels() {
    assert_eq!(camera_mode_label(CameraMode::FollowCenter), "Center");
    assert_eq!(camera_mode_label(CameraMode::FollowCombatant(1)), "Follow Combatant");
    assert_eq!(camera_mode_label(CameraMode::Manual), "Manual");
}
