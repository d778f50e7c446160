use saddle_camera_third_person_camera::config::PaddingShare;
use saddle_camera_third_person_camera::{
    debug_draw_plan, obstacle_padding_share, obstruction_ignore_set, obstruction_samples,
    reference_yaws, route_clears_input, select_active_input_camera, CollisionStrategy,
    DebugPrimitive, FollowAlignment, InputCameraCandidate, ObstacleType, ObstructionSample,
    ShoulderSide, ThirdPersonCamera, ThirdPersonCameraDebug, ThirdPersonCameraMode,
    ThirdPersonCameraTarget,
};

fn default_camera() -> ThirdPersonCamera<f32> {
    ThirdPersonCamera::new(4.6, 0.0, -0.42)
}

#[test]
fn camera_new_sets_targets_and_home() {
    let camera = ThirdPersonCamera::<f32>::new(3.0, 0.5, -0.2);
    assert_eq!(camera.distance, 3.0);
    assert_eq!(camera.target_distance, 3.0);
    assert_eq!(camera.home_distance, 3.0);
    assert_eq!(camera.yaw, 0.5);
    assert_eq!(camera.target_yaw, 0.5);
    assert_eq!(camera.home_yaw, 0.5);
    assert_eq!(camera.pitch, -0.2);
    assert_eq!(camera.target_pitch, -0.2);
    assert_eq!(camera.home_pitch, -0.2);
    assert_eq!(camera.large_target_radius, 0.0);
    assert_eq!(camera.shoulder_side, ShoulderSide::Right);
    assert_eq!(camera.home_shoulder_side, ShoulderSide::Right);
    assert_eq!(camera.mode, ThirdPersonCameraMode::Center);
    assert_eq!(camera.home_mode, ThirdPersonCameraMode::Center);
}

#[test]
fn camera_builders_set_all_three_slots() {
    let camera = default_camera()
        .with_mode(ThirdPersonCameraMode::Shoulder)
        .with_shoulder_side(ShoulderSide::Left);
    assert_eq!(camera.mode, ThirdPersonCameraMode::Shoulder);
    assert_eq!(camera.target_mode, ThirdPersonCameraMode::Shoulder);
    assert_eq!(camera.home_mode, ThirdPersonCameraMode::Shoulder);
    assert_eq!(camera.shoulder_side, ShoulderSide::Left);
    assert_eq!(camera.target_shoulder_side, ShoulderSide::Left);
    assert_eq!(camera.home_shoulder_side, ShoulderSide::Left);
    assert_eq!(camera.distance, 4.6);
}

#[test]
fn camera_capture_then_reset_restores_current_pose() {
    let mut camera = default_camera();
    camera.yaw = 1.25;
    camera.pitch = -0.7;
    camera.distance = 6.0;
    camera.mode = ThirdPersonCameraMode::Aim;
    camera.shoulder_side = ShoulderSide::Left;
    camera.capture_home_from_current();
    assert_eq!(camera.home_yaw, 1.25);
    assert_eq!(camera.home_distance, 6.0);
    camera.target_yaw = 3.0;
    camera.target_pitch = -1.0;
    camera.target_distance = 2.0;
    camera.reset_to_home();
    assert_eq!(camera.target_yaw, 1.25);
    assert_eq!(camera.target_pitch, -0.7);
    assert_eq!(camera.target_distance, 6.0);
    assert_eq!(camera.target_mode, ThirdPersonCameraMode::Aim);
    assert_eq!(camera.target_shoulder_side, ShoulderSide::Left);
}

#[test]
fn camera_side_initialization() {
    let mut camera = default_camera();
    camera.initialize_shoulder_side(ShoulderSide::Left);
    assert_eq!(camera.shoulder_side, ShoulderSide::Left);
    assert_eq!(camera.target_shoulder_side, ShoulderSide::Left);
    assert_eq!(camera.home_shoulder_side, ShoulderSide::Left);

    let mut camera = default_camera();
    camera.target_shoulder_side = ShoulderSide::Left;
    camera.initialize_shoulder_side(ShoulderSide::Left);
    assert_eq!(camera.shoulder_side, ShoulderSide::Right);
    assert_eq!(camera.home_shoulder_side, ShoulderSide::Right);
}

#[test]
fn shoulder_toggle_swaps_target_side() {
    let mut camera = default_camera();
    camera.apply_discrete_input(false, false, true, false, None);
    assert_eq!(camera.target_shoulder_side, ShoulderSide::Left);
    assert_eq!(camera.target_mode, ThirdPersonCameraMode::Shoulder);
    assert_eq!(camera.shoulder_side, ShoulderSide::Right);
}

#[test]
fn forced_modes_and_recenter() {
    let mut camera = default_camera().with_mode(ThirdPersonCameraMode::Aim);
    camera.apply_discrete_input(true, false, false, false, None);
    assert_eq!(camera.target_mode, ThirdPersonCameraMode::Center);
    camera.apply_discrete_input(true, true, false, false, None);
    assert_eq!(camera.target_mode, ThirdPersonCameraMode::Shoulder);

    let mut camera = default_camera();
    camera.target_yaw = 2.0;
    camera.target_pitch = -1.1;
    camera.target_distance = 8.0;
    camera.apply_discrete_input(false, false, false, true, Some(-1.5));
    assert_eq!(camera.target_yaw, -1.5);
    assert_eq!(camera.target_pitch, -0.42);
    assert_eq!(camera.target_distance, 4.6);

    camera.target_yaw = 2.0;
    camera.apply_discrete_input(false, false, false, true, None);
    assert_eq!(camera.target_yaw, 2.0);

    camera.target_pitch = -1.1;
    camera.apply_discrete_input(false, false, false, false, Some(0.3));
    assert_eq!(camera.target_yaw, 2.0);
    assert_eq!(camera.target_pitch, -1.1);
}

#[test]
fn target_descriptor_defaults() {
    let target = ThirdPersonCameraTarget::<[f32; 3]>::new(42);
    assert_eq!(target.target, 42);
    assert_eq!(target.offset, [0.0, 0.0, 0.0]);
    assert!(target.follow_rotation);
    assert!(target.enabled);
    assert!(target.ignore_children);
    assert!(target.ignored_entities.is_empty());
    assert!(target.recenter_on_target_change);
}

#[test]
fn ignore_set_collects_camera_marks_target_and_children() {
    let mut target = ThirdPersonCameraTarget::<[f32; 3]>::new(10);
    target.ignored_entities.push(11);
    let set = obstruction_ignore_set(1, &vec![5, 6], Some(&target), &vec![12, 13]);
    let mut members: Vec<u64> = set.into_iter().collect();
    members.sort();
    assert_eq!(members, vec![1, 5, 6, 10, 11, 12, 13]);

    target.ignore_children = false;
    let set = obstruction_ignore_set(1, &vec![], Some(&target), &vec![12, 13]);
    let mut members: Vec<u64> = set.into_iter().collect();
    members.sort();
    assert_eq!(members, vec![1, 10, 11]);

    let set = obstruction_ignore_set::<[f32; 3]>(1, &vec![2], None, &vec![12]);
    let mut members: Vec<u64> = set.into_iter().collect();
    members.sort();
    assert_eq!(members, vec![1, 2]);
}

#[test]
fn ignored_obstacles_do_not_shorten_distance() {
    // An obstacle carrying the ignore marker is excluded from the cast.
    let target = ThirdPersonCameraTarget::<[f32; 3]>::new(2);
    let obstacle = 3;
    let set = obstruction_ignore_set(1, &vec![obstacle], Some(&target), &vec![]);
    assert!(set.contains(&obstacle));
    let set = obstruction_ignore_set(1, &vec![], Some(&target), &vec![]);
    assert!(!set.contains(&obstacle));
}

#[test]
fn debug_plan_follows_toggles() {
    let debug = ThirdPersonCameraDebug::default();
    assert_eq!(
        debug_draw_plan(&debug, true),
        vec![
            DebugPrimitive::PivotSphere,
            DebugPrimitive::LookTargetSphere,
            DebugPrimitive::DesiredBoom,
            DebugPrimitive::DesiredCameraSphere,
            DebugPrimitive::CorrectedBoom,
            DebugPrimitive::CorrectedCameraSphere,
            DebugPrimitive::HitSphere,
            DebugPrimitive::HitNormalArrow,
        ]
    );
    assert_eq!(debug_draw_plan(&debug, false).len(), 6);
    let mut only_hits = ThirdPersonCameraDebug::default();
    only_hits.draw_pivot = false;
    only_hits.draw_desired = false;
    only_hits.draw_corrected = false;
    assert_eq!(
        debug_draw_plan(&only_hits, true),
        vec![DebugPrimitive::HitSphere, DebugPrimitive::HitNormalArrow]
    );
    let mut off = ThirdPersonCameraDebug::default();
    off.enabled = false;
    assert!(debug_draw_plan(&off, true).is_empty());
}

#[test]
fn config_enum_defaults() {
    assert_eq!(FollowAlignment::default(), FollowAlignment::Free);
    assert_eq!(ObstacleType::default(), ObstacleType::Blocker);
    assert_eq!(CollisionStrategy::default(), CollisionStrategy::MultiRay);
}

#[test]
fn sample_patterns() {
    let s = |right_sign: i8, up_sign: i8| ObstructionSample { right_sign, up_sign };
    assert_eq!(obstruction_samples(CollisionStrategy::SingleRay), vec![s(0, 0)]);
    assert_eq!(
        obstruction_samples(CollisionStrategy::MultiRay),
        vec![s(0, 0), s(1, 1), s(1, -1), s(-1, 1), s(-1, -1)]
    );
    assert_eq!(
        obstruction_samples(CollisionStrategy::SphereProbe),
        vec![
            s(0, 0),
            s(1, 0),
            s(-1, 0),
            s(0, 1),
            s(0, -1),
            s(1, 1),
            s(1, -1),
            s(-1, 1),
            s(-1, -1)
        ]
    );
}

#[test]
fn padding_shares() {
    assert_eq!(obstacle_padding_share(true, ObstacleType::Blocker), PaddingShare::Full);
    assert_eq!(obstacle_padding_share(true, ObstacleType::Occluder), PaddingShare::Half);
    assert_eq!(obstacle_padding_share(false, ObstacleType::Blocker), PaddingShare::Zero);
    assert_eq!(obstacle_padding_share(false, ObstacleType::Occluder), PaddingShare::Zero);
}

#[test]
fn auto_recenter_target_forward_uses_alignment_setting() {
    let forward = Some(-std::f32::consts::FRAC_PI_2);
    let movement = Some(0.3_f32);
    let (manual, idle) = reference_yaws(true, FollowAlignment::TargetForward, forward, movement);
    assert_eq!(idle, forward);
    assert_eq!(manual, forward);
}

#[test]
fn auto_recenter_movement_alignment_uses_motion_heading() {
    let forward = Some(0.0_f32);
    let movement = Some(std::f32::consts::FRAC_PI_2);
    let (manual, idle) = reference_yaws(true, FollowAlignment::MovementDirection, forward, movement);
    assert_eq!(idle, movement);
    assert_eq!(manual, forward);
    let (manual, _) = reference_yaws(false, FollowAlignment::MovementDirection, forward, movement);
    assert_eq!(manual, movement);
}

#[test]
fn reference_yaw_fallbacks() {
    let (manual, idle) = reference_yaws(true, FollowAlignment::TargetForward, None, Some(1.0_f32));
    assert_eq!(manual, Some(1.0));
    assert_eq!(idle, Some(1.0));
    let (manual, idle) = reference_yaws(false, FollowAlignment::MovementDirection, Some(2.0_f32), None);
    assert_eq!(manual, Some(2.0));
    assert_eq!(idle, Some(2.0));
    let (manual, idle) = reference_yaws(true, FollowAlignment::Free, Some(2.0_f32), Some(1.0));
    assert_eq!(manual, Some(2.0));
    assert_eq!(idle, None);
    let (manual, idle) = reference_yaws::<f32>(true, FollowAlignment::TargetForward, None, None);
    assert_eq!(manual, None);
    assert_eq!(idle, None);
}

fn candidate(entity: u64, order: isize, is_active: bool, enabled: bool) -> InputCameraCandidate {
    InputCameraCandidate { entity, order, is_active, enabled }
}

#[test]
fn active_input_camera_has_highest_order() {
    let cameras = vec![
        candidate(4, 0, true, true),
        candidate(2, 3, true, true),
        candidate(9, 5, false, true),
        candidate(8, 7, true, false),
        candidate(1, 3, true, true),
    ];
    assert_eq!(select_active_input_camera(&cameras), Some(2));
    let ties = vec![candidate(5, 1, true, true), candidate(6, 1, true, true)];
    assert_eq!(select_active_input_camera(&ties), Some(6));
    let none = vec![candidate(5, 1, false, true), candidate(6, 1, true, false)];
    assert_eq!(select_active_input_camera(&none), None);
    assert_eq!(select_active_input_camera(&vec![]), None);
}

#[test]
fn routing_clears_other_inboxes() {
    assert!(!route_clears_input(3, Some(3), false));
    assert!(route_clears_input(4, Some(3), false));
    assert!(!route_clears_input(4, None, false));
    assert!(route_clears_input(4, None, true));
}
