//! Verified core of a third-person camera rig: framing modes, shoulder and
//! lock-on adapter state, input routing, obstruction sampling patterns,
//! debug-draw planning and named camera effect layers.
//!
//! Everything here is independent of floating-point arithmetic. Values that
//! the rig stores as scalars or vectors are carried through generic type
//! parameters and are only ever copied, never computed with.

pub mod action;
pub mod components;
pub mod config;
pub mod effects;
pub mod routing;

pub use action::{
    ShoulderSide, ThirdPersonCameraActionInput, ThirdPersonCameraCursorController,
    ThirdPersonCameraLockOn, ThirdPersonCameraMode, ThirdPersonCameraShoulderRig,
    aim_blend_target, current_mode, effective_target_mode, shoulder_blend_target,
    initialize_shoulder_rig, lock_on_engagement, lock_on_selection, cursor_presentation,
    CursorGrab, CursorPresentation, LockOnEngagement, LockOnSearch, LockOnSelection,
    ShoulderBlendTargets,
};
pub use components::{
    debug_draw_plan, obstruction_ignore_set, DebugPrimitive, ThirdPersonCamera,
    ThirdPersonCameraDebug, ThirdPersonCameraTarget,
};
pub use config::{
    obstacle_padding_share, obstruction_samples, reference_yaws, CollisionStrategy,
    FollowAlignment, ObstacleType, ObstructionSample, PaddingShare,
};
pub use routing::{route_clears_input, select_active_input_camera, InputCameraCandidate};
pub use effects::{CameraEffectLayer, NamedEffectLayer, ThirdPersonCameraCustomEffects};
