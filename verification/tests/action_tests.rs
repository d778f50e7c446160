use saddle_camera_third_person_camera::action::{
    initialize_shoulder_rig, lock_on_engagement, lock_on_selection, LockOnEngagement,
    LockOnSearch, LockOnSelection,
};
use saddle_camera_third_person_camera::{
    aim_blend_target, current_mode, cursor_presentation, effective_target_mode,
    shoulder_blend_target, CursorGrab, ShoulderSide, ThirdPersonCameraActionInput,
    ThirdPersonCameraCursorController, ThirdPersonCameraLockOn, ThirdPersonCameraMode,
    ThirdPersonCameraShoulderRig,
};

#[test]
fn opposite_swaps_and_twice_returns() {
    assert_eq!(ShoulderSide::Left.opposite(), ShoulderSide::Right);
    assert_eq!(ShoulderSide::Right.opposite(), ShoulderSide::Left);
    assert_eq!(ShoulderSide::Left.opposite().opposite(), ShoulderSide::Left);
}

#[test]
fn sign_points_left_negative() {
    assert_eq!(ShoulderSide::Left.sign(), -1);
    assert_eq!(ShoulderSide::Right.sign(), 1);
    assert_eq!(ShoulderSide::Left.opposite().sign(), -ShoulderSide::Left.sign());
}

#[test]
fn enum_defaults() {
    assert_eq!(ShoulderSide::default(), ShoulderSide::Right);
    assert_eq!(ThirdPersonCameraMode::default(), ThirdPersonCameraMode::Center);
    assert_eq!(ThirdPersonCameraLockOn::default().active_target, None);
}

#[test]
fn action_input_clear_and_motion() {
    let mut input = ThirdPersonCameraActionInput::default();
    assert!(!input.has_manual_motion());
    input.lock_on_previous = true;
    assert!(input.has_manual_motion());
    input.clear_transient();
    assert_eq!(input, ThirdPersonCameraActionInput::default());
    assert!(!input.has_manual_motion());
}

#[test]
fn each_action_request_counts_as_motion() {
    for field in 0..9 {
        let mut input = ThirdPersonCameraActionInput::default();
        match field {
            0 => input.shoulder_toggle = true,
            1 => input.shoulder_hold = true,
            2 => input.aim = true,
            3 => input.lock_on_toggle = true,
            4 => input.lock_on_next = true,
            5 => input.lock_on_previous = true,
            6 => input.cursor_lock_toggle = true,
            7 => input.raw_mode_center = true,
            _ => input.raw_mode_shoulder = true,
        }
        assert!(input.has_manual_motion());
    }
}

#[test]
fn shoulder_rig_builders_and_home() {
    let rig = ThirdPersonCameraShoulderRig::default()
        .with_mode(ThirdPersonCameraMode::Aim)
        .with_shoulder_side(ShoulderSide::Left);
    assert_eq!(rig.mode, ThirdPersonCameraMode::Aim);
    assert_eq!(rig.target_mode, ThirdPersonCameraMode::Aim);
    assert_eq!(rig.home_mode, ThirdPersonCameraMode::Aim);
    assert_eq!(rig.shoulder_side, ShoulderSide::Left);
    assert_eq!(rig.target_shoulder_side, ShoulderSide::Left);
    assert_eq!(rig.home_shoulder_side, ShoulderSide::Left);

    let mut rig = ThirdPersonCameraShoulderRig::default();
    rig.mode = ThirdPersonCameraMode::Shoulder;
    rig.shoulder_side = ShoulderSide::Left;
    rig.capture_home_from_current();
    assert_eq!(rig.home_mode, ThirdPersonCameraMode::Shoulder);
    assert_eq!(rig.home_shoulder_side, ShoulderSide::Left);
    assert_eq!(rig.target_mode, ThirdPersonCameraMode::Center);
    rig.reset_to_home();
    assert_eq!(rig.target_mode, ThirdPersonCameraMode::Shoulder);
    assert_eq!(rig.target_shoulder_side, ShoulderSide::Left);
}

#[test]
fn initialize_rig_adopts_left_default_only_from_right_defaults() {
    let mut rig = ThirdPersonCameraShoulderRig::default();
    let targets = initialize_shoulder_rig(&mut rig, ShoulderSide::Left, true);
    assert_eq!(rig.shoulder_side, ShoulderSide::Left);
    assert_eq!(rig.target_shoulder_side, ShoulderSide::Left);
    assert_eq!(rig.home_shoulder_side, ShoulderSide::Left);
    assert_eq!(targets.shoulder, 0);
    assert_eq!(targets.aim, 0);

    let mut rig = ThirdPersonCameraShoulderRig::default().with_mode(ThirdPersonCameraMode::Aim);
    rig.home_shoulder_side = ShoulderSide::Left;
    let targets = initialize_shoulder_rig(&mut rig, ShoulderSide::Left, true);
    assert_eq!(rig.shoulder_side, ShoulderSide::Right);
    assert_eq!(rig.target_shoulder_side, ShoulderSide::Right);
    assert_eq!(targets.shoulder, 1);
    assert_eq!(targets.aim, 1);

    let mut rig = ThirdPersonCameraShoulderRig::default().with_mode(ThirdPersonCameraMode::Aim);
    let targets = initialize_shoulder_rig(&mut rig, ShoulderSide::Right, false);
    assert_eq!(targets.aim, 0);
}

#[test]
fn cursor_controller_new_default_and_toggle() {
    let cursor = ThirdPersonCameraCursorController::new(false, true);
    assert!(!cursor.locked);
    let mut cursor = ThirdPersonCameraCursorController::default();
    assert!(cursor.lock_by_default && cursor.allow_toggle && cursor.locked);
    cursor.locked = false;
    cursor.initialize();
    assert!(cursor.locked);

    cursor.apply_toggle(true, true);
    assert!(!cursor.locked);
    cursor.apply_toggle(true, true);
    assert!(cursor.locked);
    cursor.apply_toggle(false, true);
    assert!(cursor.locked);
    let mut fixed = ThirdPersonCameraCursorController::new(true, false);
    fixed.apply_toggle(true, true);
    assert!(fixed.locked);
}

#[test]
fn cursor_presentation_follows_lock() {
    let locked = cursor_presentation(true);
    assert!(!locked.visible);
    assert_eq!(locked.grab, CursorGrab::Locked);
    let free = cursor_presentation(false);
    assert!(free.visible);
    assert_eq!(free.grab, CursorGrab::Free);
}

#[test]
fn effective_mode_priorities() {
    let mut input = ThirdPersonCameraActionInput::default();
    assert_eq!(
        effective_target_mode(ThirdPersonCameraMode::Shoulder, &input, true, false),
        ThirdPersonCameraMode::Shoulder
    );
    input.shoulder_hold = true;
    assert_eq!(
        effective_target_mode(ThirdPersonCameraMode::Center, &input, true, false),
        ThirdPersonCameraMode::Shoulder
    );
    input.aim = true;
    assert_eq!(
        effective_target_mode(ThirdPersonCameraMode::Center, &input, true, false),
        ThirdPersonCameraMode::Aim
    );
    assert_eq!(
        effective_target_mode(ThirdPersonCameraMode::Center, &input, false, false),
        ThirdPersonCameraMode::Shoulder
    );
    let idle = ThirdPersonCameraActionInput::default();
    assert_eq!(
        effective_target_mode(ThirdPersonCameraMode::Center, &idle, true, true),
        ThirdPersonCameraMode::Aim
    );
}

#[test]
fn current_mode_prefers_aim_then_shoulder() {
    assert_eq!(current_mode(true, true), ThirdPersonCameraMode::Aim);
    assert_eq!(current_mode(false, true), ThirdPersonCameraMode::Shoulder);
    assert_eq!(current_mode(false, false), ThirdPersonCameraMode::Center);
}

#[test]
fn blend_targets() {
    assert_eq!(shoulder_blend_target(ThirdPersonCameraMode::Center, ShoulderSide::Left), 0);
    assert_eq!(shoulder_blend_target(ThirdPersonCameraMode::Shoulder, ShoulderSide::Left), -1);
    assert_eq!(shoulder_blend_target(ThirdPersonCameraMode::Aim, ShoulderSide::Right), 1);
    assert_eq!(aim_blend_target(ThirdPersonCameraMode::Aim, true), 1);
    assert_eq!(aim_blend_target(ThirdPersonCameraMode::Aim, false), 0);
    assert_eq!(aim_blend_target(ThirdPersonCameraMode::Shoulder, true), 0);
}

#[test]
fn settled_blends_show_their_mode() {
    for mode in [
        ThirdPersonCameraMode::Center,
        ThirdPersonCameraMode::Shoulder,
        ThirdPersonCameraMode::Aim,
    ] {
        let shown = current_mode(
            aim_blend_target(mode, true) == 1,
            shoulder_blend_target(mode, ShoulderSide::Left) != 0,
        );
        assert_eq!(shown, mode);
    }
}

#[test]
fn aim_hold_uses_temporary_mode_override() {
    // The persistent target mode stays center; aiming only changes the mode
    // the rig heads for while it is held.
    let rig = ThirdPersonCameraShoulderRig::default();
    let mut input = ThirdPersonCameraActionInput::default();
    input.aim = true;
    let desired = effective_target_mode(rig.target_mode, &input, true, false);
    assert_eq!(rig.target_mode, ThirdPersonCameraMode::Center);
    assert_eq!(aim_blend_target(desired, true), 1);

    input.clear_transient();
    let desired = effective_target_mode(rig.target_mode, &input, true, false);
    assert_eq!(rig.target_mode, ThirdPersonCameraMode::Center);
    assert_eq!(aim_blend_target(desired, true), 0);
}

#[test]
fn shoulder_hold_is_temporary() {
    let rig = ThirdPersonCameraShoulderRig::default();
    let mut input = ThirdPersonCameraActionInput::default();
    input.shoulder_hold = true;
    let desired = effective_target_mode(rig.target_mode, &input, true, false);
    assert_eq!(rig.target_mode, ThirdPersonCameraMode::Center);
    assert_eq!(shoulder_blend_target(desired, rig.target_shoulder_side), 1);

    input.clear_transient();
    let desired = effective_target_mode(rig.target_mode, &input, true, false);
    assert_eq!(rig.target_mode, ThirdPersonCameraMode::Center);
    assert_eq!(shoulder_blend_target(desired, rig.target_shoulder_side), 0);
}

#[test]
fn lock_on_selection_paths() {
    let mut input = ThirdPersonCameraActionInput::default();
    assert_eq!(
        lock_on_selection(false, true, Some(7), true, &input),
        LockOnSelection { active_target: None, search: LockOnSearch::Keep }
    );
    assert_eq!(
        lock_on_selection(true, false, Some(7), true, &input),
        LockOnSelection { active_target: None, search: LockOnSearch::Keep }
    );
    assert_eq!(
        lock_on_selection(true, true, Some(7), true, &input),
        LockOnSelection { active_target: Some(7), search: LockOnSearch::Keep }
    );
    assert_eq!(
        lock_on_selection(true, true, Some(7), false, &input),
        LockOnSelection { active_target: None, search: LockOnSearch::Keep }
    );
    input.lock_on_toggle = true;
    assert_eq!(
        lock_on_selection(true, true, Some(7), true, &input),
        LockOnSelection { active_target: None, search: LockOnSearch::Keep }
    );
    assert_eq!(
        lock_on_selection(true, true, None, false, &input),
        LockOnSelection { active_target: None, search: LockOnSearch::Best }
    );
    let mut input = ThirdPersonCameraActionInput::default();
    input.lock_on_next = true;
    input.lock_on_previous = true;
    assert_eq!(
        lock_on_selection(true, true, Some(3), true, &input),
        LockOnSelection { active_target: Some(3), search: LockOnSearch::Next }
    );
    input.lock_on_next = false;
    assert_eq!(
        lock_on_selection(true, true, Some(3), true, &input),
        LockOnSelection { active_target: Some(3), search: LockOnSearch::Previous }
    );
}

#[test]
fn lock_on_engagement_paths() {
    assert_eq!(
        lock_on_engagement(true, Some(9), true),
        LockOnEngagement { requested: Some(9), engaged: Some(9) }
    );
    assert_eq!(
        lock_on_engagement(true, Some(9), false),
        LockOnEngagement { requested: None, engaged: None }
    );
    assert_eq!(
        lock_on_engagement(true, None, true),
        LockOnEngagement { requested: None, engaged: None }
    );
    assert_eq!(
        lock_on_engagement(false, Some(9), true),
        LockOnEngagement { requested: None, engaged: None }
    );
}
