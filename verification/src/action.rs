use vstd::prelude::*;

verus! {

/// Which shoulder the camera frames the subject over.
#[derive(Clone, Copy, Debug, PartialEq, Eq, Structural)]
pub enum ShoulderSide {
    Left,
    Right,
}

/// The other shoulder.
pub open spec fn opposite_side(side: ShoulderSide) -> ShoulderSide {
    match side {
        ShoulderSide::Left => ShoulderSide::Right,
        ShoulderSide::Right => ShoulderSide::Left,
    }
}

/// Lateral direction of a shoulder: `-1` for left, `1` for right.
pub open spec fn side_sign(side: ShoulderSide) -> int {
    match side {
        ShoulderSide::Left => -1,
        ShoulderSide::Right => 1,
    }
}

impl Default for ShoulderSide {
    fn default() -> (side: Self)
        ensures
            side == ShoulderSide::Right,
    {
        ShoulderSide::Right
    }
}

impl ShoulderSide {
    pub fn opposite(self) -> (side: Self)
        ensures
            side == opposite_side(self),
    {
        match self {
            ShoulderSide::Left => ShoulderSide::Right,
            ShoulderSide::Right => ShoulderSide::Left,
        }
    }

    /// Unit lateral direction of the shoulder (the rig scales it by the
    /// configured shoulder offset).
    pub fn sign(self) -> (s: i8)
        ensures
            s == side_sign(self),
    {
        match self {
            ShoulderSide::Left => -1,
            ShoulderSide::Right => 1,
        }
    }
}

/// Framing mode of the rig.
#[derive(Clone, Copy, Debug, PartialEq, Eq, Structural)]
pub enum ThirdPersonCameraMode {
    Center,
    Shoulder,
    Aim,
}

impl Default for ThirdPersonCameraMode {
    fn default() -> (mode: Self)
        ensures
            mode == ThirdPersonCameraMode::Center,
    {
        ThirdPersonCameraMode::Center
    }
}

/// Transient per-frame requests for the action adapters.
#[derive(Clone, Copy, Debug, PartialEq, Eq, Structural)]
pub struct ThirdPersonCameraActionInput {
    pub shoulder_toggle: bool,
    pub shoulder_hold: bool,
    pub aim: bool,
    pub lock_on_toggle: bool,
    pub lock_on_next: bool,
    pub lock_on_previous: bool,
    pub cursor_lock_toggle: bool,
    pub raw_mode_center: bool,
    pub raw_mode_shoulder: bool,
}

impl ThirdPersonCameraActionInput {
    /// The inbox with no request set.
    pub open spec fn idle() -> Self {
        ThirdPersonCameraActionInput {
            shoulder_toggle: false,
            shoulder_hold: false,
            aim: false,
            lock_on_toggle: false,
            lock_on_next: false,
            lock_on_previous: false,
            cursor_lock_toggle: false,
            raw_mode_center: false,
            raw_mode_shoulder: false,
        }
    }

    /// Whether any request is set.
    pub open spec fn requests_anything(self) -> bool {
        self.shoulder_toggle || self.shoulder_hold || self.aim || self.lock_on_toggle
            || self.lock_on_next || self.lock_on_previous || self.cursor_lock_toggle
            || self.raw_mode_center || self.raw_mode_shoulder
    }

    pub fn clear_transient(&mut self)
        ensures
            *final(self) == Self::idle(),
    {
        *self = Self::default();
    }

    pub fn has_manual_motion(&self) -> (moved: bool)
        ensures
            moved == self.requests_anything(),
    {
        self.shoulder_toggle || self.shoulder_hold || self.aim || self.lock_on_toggle
            || self.lock_on_next || self.lock_on_previous || self.cursor_lock_toggle
            || self.raw_mode_center || self.raw_mode_shoulder
    }
}

impl Default for ThirdPersonCameraActionInput {
    fn default() -> (input: Self)
        ensures
            input == Self::idle(),
    {
        ThirdPersonCameraActionInput {
            shoulder_toggle: false,
            shoulder_hold: false,
            aim: false,
            lock_on_toggle: false,
            lock_on_next: false,
            lock_on_previous: false,
            cursor_lock_toggle: false,
            raw_mode_center: false,
            raw_mode_shoulder: false,
        }
    }
}

/// Persistent shoulder and framing-mode state of the shoulder adapter.
#[derive(Clone, Copy, Debug, PartialEq, Eq, Structural)]
pub struct ThirdPersonCameraShoulderRig {
    pub shoulder_side: ShoulderSide,
    pub target_shoulder_side: ShoulderSide,
    pub mode: ThirdPersonCameraMode,
    pub target_mode: ThirdPersonCameraMode,
    pub home_shoulder_side: ShoulderSide,
    pub home_mode: ThirdPersonCameraMode,
}

impl ThirdPersonCameraShoulderRig {
    /// The rig with its current side and mode recorded as home.
    pub open spec fn home_captured(self) -> Self {
        ThirdPersonCameraShoulderRig {
            home_shoulder_side: self.shoulder_side,
            home_mode: self.mode,
            ..self
        }
    }

    /// The rig heading back to its home side and mode.
    pub open spec fn reset_home(self) -> Self {
        ThirdPersonCameraShoulderRig {
            target_shoulder_side: self.home_shoulder_side,
            target_mode: self.home_mode,
            ..self
        }
    }

    pub fn with_mode(self, mode: ThirdPersonCameraMode) -> (rig: Self)
        ensures
            rig == (ThirdPersonCameraShoulderRig {
                mode,
                target_mode: mode,
                home_mode: mode,
                ..self
            }),
    {
        let mut rig = self;
        rig.mode = mode;
        rig.target_mode = mode;
        rig.home_mode = mode;
        rig
    }

    pub fn with_shoulder_side(self, side: ShoulderSide) -> (rig: Self)
        ensures
            rig == (ThirdPersonCameraShoulderRig {
                shoulder_side: side,
                target_shoulder_side: side,
                home_shoulder_side: side,
                ..self
            }),
    {
        let mut rig = self;
        rig.shoulder_side = side;
        rig.target_shoulder_side = side;
        rig.home_shoulder_side = side;
        rig
    }

    pub fn capture_home_from_current(&mut self)
        ensures
            *final(self) == old(self).home_captured(),
    {
        self.home_shoulder_side = self.shoulder_side;
        self.home_mode = self.mode;
    }

    pub fn reset_to_home(&mut self)
        ensures
            *final(self) == old(self).reset_home(),
    {
        self.target_shoulder_side = self.home_shoulder_side;
        self.target_mode = self.home_mode;
    }
}

impl Default for ThirdPersonCameraShoulderRig {
    fn default() -> (rig: Self)
        ensures
            rig == (ThirdPersonCameraShoulderRig {
                shoulder_side: ShoulderSide::Right,
                target_shoulder_side: ShoulderSide::Right,
                mode: ThirdPersonCameraMode::Center,
                target_mode: ThirdPersonCameraMode::Center,
                home_shoulder_side: ShoulderSide::Right,
                home_mode: ThirdPersonCameraMode::Center,
            }),
    {
        ThirdPersonCameraShoulderRig {
            shoulder_side: ShoulderSide::Right,
            target_shoulder_side: ShoulderSide::Right,
            mode: ThirdPersonCameraMode::Center,
            target_mode: ThirdPersonCameraMode::Center,
            home_shoulder_side: ShoulderSide::Right,
            home_mode: ThirdPersonCameraMode::Center,
        }
    }
}

/// Requested lock-on target, identified by the entity's bit pattern.
#[derive(Clone, Copy, Debug, PartialEq, Eq, Structural)]
pub struct ThirdPersonCameraLockOn {
    pub active_target: Option<u64>,
}

impl Default for ThirdPersonCameraLockOn {
    fn default() -> (lock_on: Self)
        ensures
            lock_on.active_target is None,
    {
        ThirdPersonCameraLockOn { active_target: None }
    }
}

/// Cursor-lock ownership for the active camera.
#[derive(Clone, Copy, Debug, PartialEq, Eq, Structural)]
pub struct ThirdPersonCameraCursorController {
    pub lock_by_default: bool,
    pub allow_toggle: bool,
    pub locked: bool,
}

impl ThirdPersonCameraCursorController {
    pub fn new(lock_by_default: bool, allow_toggle: bool) -> (cursor: Self)
        ensures
            cursor == (ThirdPersonCameraCursorController {
                lock_by_default,
                allow_toggle,
                locked: lock_by_default,
            }),
    {
        ThirdPersonCameraCursorController { lock_by_default, allow_toggle, locked: lock_by_default }
    }
}

impl Default for ThirdPersonCameraCursorController {
    fn default() -> (cursor: Self)
        ensures
            cursor == (ThirdPersonCameraCursorController {
                lock_by_default: true,
                allow_toggle: true,
                locked: true,
            }),
    {
        Self::new(true, true)
    }
}

/// The mode the rig heads for this frame: aim (when aiming is enabled and
/// the player aims or a lock-on is active) overrides a held shoulder, which
/// overrides the persistent mode.
pub open spec fn spec_effective_target_mode(
    persistent_mode: ThirdPersonCameraMode,
    input: ThirdPersonCameraActionInput,
    aim_enabled: bool,
    lock_on_active: bool,
) -> ThirdPersonCameraMode {
    if aim_enabled && (input.aim || lock_on_active) {
        ThirdPersonCameraMode::Aim
    } else if input.shoulder_hold {
        ThirdPersonCameraMode::Shoulder
    } else {
        persistent_mode
    }
}

pub fn effective_target_mode(
    persistent_mode: ThirdPersonCameraMode,
    input: &ThirdPersonCameraActionInput,
    aim_enabled: bool,
    lock_on_active: bool,
) -> (mode: ThirdPersonCameraMode)
    ensures
        mode == spec_effective_target_mode(persistent_mode, *input, aim_enabled, lock_on_active),
{
    if aim_enabled && (input.aim || lock_on_active) {
        ThirdPersonCameraMode::Aim
    } else if input.shoulder_hold {
        ThirdPersonCameraMode::Shoulder
    } else {
        persistent_mode
    }
}

/// The mode the rig currently shows, from whether the aim blend and the
/// shoulder blend have passed half way.
pub open spec fn spec_current_mode(aim_engaged: bool, shoulder_engaged: bool) -> ThirdPersonCameraMode {
    if aim_engaged {
        ThirdPersonCameraMode::Aim
    } else if shoulder_engaged {
        ThirdPersonCameraMode::Shoulder
    } else {
        ThirdPersonCameraMode::Center
    }
}

/// `aim_engaged` is `aim_blend > 0.5`, `shoulder_engaged` is
/// `|shoulder_blend| > 0.5`.
pub fn current_mode(aim_engaged: bool, shoulder_engaged: bool) -> (mode: ThirdPersonCameraMode)
    ensures
        mode == spec_current_mode(aim_engaged, shoulder_engaged),
{
    if aim_engaged {
        ThirdPersonCameraMode::Aim
    } else if shoulder_engaged {
        ThirdPersonCameraMode::Shoulder
    } else {
        ThirdPersonCameraMode::Center
    }
}

/// Target of the lateral shoulder blend: none in center framing, the
/// shoulder's direction otherwise.
pub open spec fn spec_shoulder_blend_target(mode: ThirdPersonCameraMode, side: ShoulderSide) -> int {
    match mode {
        ThirdPersonCameraMode::Center => 0,
        _ => side_sign(side),
    }
}

pub fn shoulder_blend_target(mode: ThirdPersonCameraMode, side: ShoulderSide) -> (blend: i8)
    ensures
        blend == spec_shoulder_blend_target(mode, side),
{
    match mode {
        ThirdPersonCameraMode::Center => 0,
        ThirdPersonCameraMode::Shoulder | ThirdPersonCameraMode::Aim => side.sign(),
    }
}

/// Target of the aim blend: full only in aim mode with aiming enabled.
pub open spec fn spec_aim_blend_target(mode: ThirdPersonCameraMode, aim_enabled: bool) -> int {
    if aim_enabled && mode == ThirdPersonCameraMode::Aim {
        1
    } else {
        0
    }
}

pub fn aim_blend_target(mode: ThirdPersonCameraMode, aim_enabled: bool) -> (blend: i8)
    ensures
        blend == spec_aim_blend_target(mode, aim_enabled),
{
    if aim_enabled && mode == ThirdPersonCameraMode::Aim {
        1
    } else {
        0
    }
}


/// The rig adopts a left default shoulder only when it still carries the
/// untouched right-shoulder defaults on all three side fields.
pub open spec fn adopts_left_default(
    default_side: ShoulderSide,
    side: ShoulderSide,
    target_side: ShoulderSide,
    home_side: ShoulderSide,
) -> bool {
    default_side == ShoulderSide::Left && side == ShoulderSide::Right && target_side
        == ShoulderSide::Right && home_side == ShoulderSide::Right
}

/// Blend targets a freshly initialised shoulder rig starts at (and is snapped to).
#[derive(Clone, Copy, Debug, PartialEq, Eq, Structural)]
pub struct ShoulderBlendTargets {
    /// Lateral blend target: `-1`, `0` or `1`.
    pub shoulder: i8,
    /// Aim blend target: `0` or `1`.
    pub aim: i8,
}

/// Initialisation of a newly added shoulder rig: adopt a left default side
/// when the rig still has its right-side defaults, and report the blend
/// targets for its target mode and side.
pub fn initialize_shoulder_rig(
    rig: &mut ThirdPersonCameraShoulderRig,
    default_side: ShoulderSide,
    aim_enabled: bool,
) -> (targets: ShoulderBlendTargets)
    ensures
        adopts_left_default(
            default_side,
            old(rig).shoulder_side,
            old(rig).target_shoulder_side,
            old(rig).home_shoulder_side,
        ) ==> *final(rig) == (ThirdPersonCameraShoulderRig {
            shoulder_side: ShoulderSide::Left,
            target_shoulder_side: ShoulderSide::Left,
            home_shoulder_side: ShoulderSide::Left,
            ..*old(rig)
        }),
        !adopts_left_default(
            default_side,
            old(rig).shoulder_side,
            old(rig).target_shoulder_side,
            old(rig).home_shoulder_side,
        ) ==> *final(rig) == *old(rig),
        targets.shoulder == spec_shoulder_blend_target(
            final(rig).target_mode,
            final(rig).target_shoulder_side,
        ),
        targets.aim == spec_aim_blend_target(final(rig).target_mode, aim_enabled),
{
    if default_side == ShoulderSide::Left && rig.shoulder_side == ShoulderSide::Right
        && rig.target_shoulder_side == ShoulderSide::Right && rig.home_shoulder_side
        == ShoulderSide::Right {
        rig.shoulder_side = ShoulderSide::Left;
        rig.target_shoulder_side = ShoulderSide::Left;
        rig.home_shoulder_side = ShoulderSide::Left;
    }
    let shoulder = shoulder_blend_target(rig.target_mode, rig.target_shoulder_side);
    let aim = aim_blend_target(rig.target_mode, aim_enabled);
    ShoulderBlendTargets { shoulder, aim }
}

impl ThirdPersonCameraCursorController {
    /// A newly added controller starts in its default lock state.
    pub fn initialize(&mut self)
        ensures
            *final(self) == (ThirdPersonCameraCursorController {
                locked: old(self).lock_by_default,
                ..*old(self)
            }),
    {
        self.locked = self.lock_by_default;
    }

    /// Lock state after a frame: a toggle request flips it, but only on the
    /// camera that owns input and only when toggling is allowed.
    pub open spec fn toggled_state(self, is_input_camera: bool, toggle_requested: bool) -> bool {
        if is_input_camera && toggle_requested && self.allow_toggle {
            !self.locked
        } else {
            self.locked
        }
    }

    pub fn apply_toggle(&mut self, is_input_camera: bool, toggle_requested: bool)
        ensures
            *final(self) == (ThirdPersonCameraCursorController {
                locked: old(self).toggled_state(is_input_camera, toggle_requested),
                ..*old(self)
            }),
    {
        if is_input_camera && toggle_requested && self.allow_toggle {
            self.locked = !self.locked;
        }
    }
}

/// How the window cursor is grabbed.
#[derive(Clone, Copy, Debug, PartialEq, Eq, Structural)]
pub enum CursorGrab {
    Locked,
    Free,
}

/// What the window cursor shows for a lock state.
#[derive(Clone, Copy, Debug, PartialEq, Eq, Structural)]
pub struct CursorPresentation {
    pub visible: bool,
    pub grab: CursorGrab,
}

/// A locked cursor is hidden and grabbed; an unlocked one is visible and free.
pub fn cursor_presentation(locked: bool) -> (presentation: CursorPresentation)
    ensures
        presentation.visible == !locked,
        presentation.grab == (if locked { CursorGrab::Locked } else { CursorGrab::Free }),
{
    CursorPresentation {
        visible: !locked,
        grab: if locked { CursorGrab::Locked } else { CursorGrab::Free },
    }
}

/// Which candidate search the lock-on selection asks for this frame.
#[derive(Clone, Copy, Debug, PartialEq, Eq, Structural)]
pub enum LockOnSearch {
    /// Keep the (possibly cleared) current target.
    Keep,
    /// Pick the best-ranked candidate in front of the camera.
    Best,
    /// Cycle to the nearest candidate clockwise in yaw.
    Next,
    /// Cycle to the nearest candidate counter-clockwise in yaw.
    Previous,
}

/// Outcome of the discrete part of lock-on selection: the target kept going
/// into the search, and which search to run.
#[derive(Clone, Copy, Debug, PartialEq, Eq, Structural)]
pub struct LockOnSelection {
    pub active_target: Option<u64>,
    pub search: LockOnSearch,
}

pub open spec fn spec_lock_on_selection(
    lock_on_enabled: bool,
    follow_target_ready: bool,
    active_target: Option<u64>,
    active_target_valid: bool,
    input: ThirdPersonCameraActionInput,
) -> LockOnSelection {
    if !lock_on_enabled || !follow_target_ready {
        LockOnSelection { active_target: None, search: LockOnSearch::Keep }
    } else {
        let kept = if active_target_valid { active_target } else { None };
        if input.lock_on_toggle {
            if kept is Some {
                LockOnSelection { active_target: None, search: LockOnSearch::Keep }
            } else {
                LockOnSelection { active_target: None, search: LockOnSearch::Best }
            }
        } else if input.lock_on_next {
            LockOnSelection { active_target: kept, search: LockOnSearch::Next }
        } else if input.lock_on_previous {
            LockOnSelection { active_target: kept, search: LockOnSearch::Previous }
        } else {
            LockOnSelection { active_target: kept, search: LockOnSearch::Keep }
        }
    }
}

/// Lock-on target selection for one camera and one frame.
///
/// `follow_target_ready` says that the camera has an enabled follow target
/// whose anchor could be sampled; `active_target_valid` says that the current
/// target still exists, is not the followed entity, and is within the maximum
/// distance. A toggle releases a valid target or asks for the best candidate;
/// otherwise next/previous ask for a cycle from the kept target.
pub fn lock_on_selection(
    lock_on_enabled: bool,
    follow_target_ready: bool,
    active_target: Option<u64>,
    active_target_valid: bool,
    input: &ThirdPersonCameraActionInput,
) -> (selection: LockOnSelection)
    ensures
        selection == spec_lock_on_selection(
            lock_on_enabled,
            follow_target_ready,
            active_target,
            active_target_valid,
            *input,
        ),
{
    if !lock_on_enabled || !follow_target_ready {
        return LockOnSelection { active_target: None, search: LockOnSearch::Keep };
    }
    let kept = if active_target_valid { active_target } else { None };
    if input.lock_on_toggle {
        if kept.is_some() {
            LockOnSelection { active_target: None, search: LockOnSearch::Keep }
        } else {
            LockOnSelection { active_target: None, search: LockOnSearch::Best }
        }
    } else if input.lock_on_next {
        LockOnSelection { active_target: kept, search: LockOnSearch::Next }
    } else if input.lock_on_previous {
        LockOnSelection { active_target: kept, search: LockOnSearch::Previous }
    } else {
        LockOnSelection { active_target: kept, search: LockOnSearch::Keep }
    }
}

/// Lock-on state the runtime settles on for a frame.
#[derive(Clone, Copy, Debug, PartialEq, Eq, Structural)]
pub struct LockOnEngagement {
    /// The requested target after validation.
    pub requested: Option<u64>,
    /// The target the camera actually frames; its blend target is full
    /// exactly when this is set.
    pub engaged: Option<u64>,
}

/// `anchor_in_range` says that the requested target's anchor could be
/// sampled and lies within the maximum distance of the pivot.
pub open spec fn spec_lock_on_engagement(
    lock_on_enabled: bool,
    requested: Option<u64>,
    anchor_in_range: bool,
) -> LockOnEngagement {
    if lock_on_enabled && requested is Some && anchor_in_range {
        LockOnEngagement { requested, engaged: requested }
    } else {
        LockOnEngagement { requested: None, engaged: None }
    }
}

pub fn lock_on_engagement(lock_on_enabled: bool, requested: Option<u64>, anchor_in_range: bool) -> (engagement: LockOnEngagement)
    ensures
        engagement == spec_lock_on_engagement(lock_on_enabled, requested, anchor_in_range),
{
    if lock_on_enabled {
        match requested {
            Some(target) => {
                if anchor_in_range {
                    LockOnEngagement { requested: Some(target), engaged: Some(target) }
                } else {
                    LockOnEngagement { requested: None, engaged: None }
                }
            },
            None => LockOnEngagement { requested: None, engaged: None },
        }
    } else {
        LockOnEngagement { requested: None, engaged: None }
    }
}

/// Swapping shoulders twice returns to the starting shoulder.
pub proof fn lemma_opposite_is_involution(side: ShoulderSide)
    ensures
        opposite_side(opposite_side(side)) == side,
{
}

/// The opposite shoulder points the other way.
pub proof fn lemma_opposite_flips_sign(side: ShoulderSide)
    ensures
        side_sign(opposite_side(side)) == -side_sign(side),
{
}

/// Resetting a shoulder rig right after capturing its home aims it back at
/// the side and mode it had, and changes nothing else.
pub proof fn lemma_rig_reset_after_capture(rig: ThirdPersonCameraShoulderRig)
    ensures
        rig.home_captured().reset_home() == (ThirdPersonCameraShoulderRig {
            target_shoulder_side: rig.shoulder_side,
            target_mode: rig.mode,
            home_shoulder_side: rig.shoulder_side,
            home_mode: rig.mode,
            ..rig
        }),
{
}

/// A cleared action inbox requests nothing.
pub proof fn lemma_cleared_action_input_is_idle()
    ensures
        !ThirdPersonCameraActionInput::idle().requests_anything(),
{
}

/// Aim and shoulder holds are temporary: without requests and without a
/// lock-on, the rig heads for its persistent mode.
pub proof fn lemma_idle_input_keeps_persistent_mode(
    persistent_mode: ThirdPersonCameraMode,
    aim_enabled: bool,
)
    ensures
        spec_effective_target_mode(
            persistent_mode,
            ThirdPersonCameraActionInput::idle(),
            aim_enabled,
            false,
        ) == persistent_mode,
{
}

/// Once both blends have reached their targets for a mode, the mode the rig
/// shows is that mode; aim mode with aiming disabled shows as shoulder
/// framing.
pub proof fn lemma_settled_blends_show_target_mode(
    mode: ThirdPersonCameraMode,
    side: ShoulderSide,
    aim_enabled: bool,
)
    ensures
        spec_current_mode(
            spec_aim_blend_target(mode, aim_enabled) == 1,
            spec_shoulder_blend_target(mode, side) != 0,
        ) == (if mode == ThirdPersonCameraMode::Aim && !aim_enabled {
            ThirdPersonCameraMode::Shoulder
        } else {
            mode
        }),
{
}

/// Two granted toggle requests restore the cursor lock state.
pub proof fn lemma_cursor_double_toggle(
    cursor: ThirdPersonCameraCursorController,
    is_input_camera: bool,
    toggle_requested: bool,
)
    ensures
        (ThirdPersonCameraCursorController {
            locked: cursor.toggled_state(is_input_camera, toggle_requested),
            ..cursor
        }).toggled_state(is_input_camera, toggle_requested) == cursor.locked,
{
}

/// With lock-on disabled, selection keeps no target and searches for none,
/// and the runtime frames no target.
pub proof fn lemma_disabled_lock_on_never_targets(
    follow_target_ready: bool,
    active_target: Option<u64>,
    active_target_valid: bool,
    input: ThirdPersonCameraActionInput,
    anchor_in_range: bool,
)
    ensures
        spec_lock_on_selection(false, follow_target_ready, active_target, active_target_valid, input)
            == (LockOnSelection { active_target: None, search: LockOnSearch::Keep }),
        spec_lock_on_engagement(false, active_target, anchor_in_range) == (LockOnEngagement {
            requested: None,
            engaged: None,
        }),
{
}

/// A lock-on toggle releases a valid target; pressed again with nothing
/// held it asks for the best candidate.
pub proof fn lemma_lock_on_toggle_alternates(target: u64, input: ThirdPersonCameraActionInput)
    requires
        input.lock_on_toggle,
    ensures
        spec_lock_on_selection(true, true, Some(target), true, input) == (LockOnSelection {
            active_target: None,
            search: LockOnSearch::Keep,
        }),
        spec_lock_on_selection(true, true, None, false, input) == (LockOnSelection {
            active_target: None,
            search: LockOnSearch::Best,
        }),
{
}

/// The opposite shoulder is never the same shoulder, and signs are unit
/// directions: left negative, right positive.
pub proof fn lemma_sides_are_distinct_units(side: ShoulderSide)
    ensures
        opposite_side(side) != side,
        side_sign(side) == 1 || side_sign(side) == -1,
        side_sign(ShoulderSide::Left) < 0 < side_sign(ShoulderSide::Right),
{
}

/// An inbox requests something exactly when it differs from the cleared
/// inbox: every single request counts.
pub proof fn lemma_any_request_is_motion(input: ThirdPersonCameraActionInput)
    ensures
        input.requests_anything() <==> input != ThirdPersonCameraActionInput::idle(),
{
}

/// Capturing home only writes the home slots from the current ones;
/// resetting only writes the target slots from the home ones.
pub proof fn lemma_rig_capture_and_reset_slots(rig: ThirdPersonCameraShoulderRig)
    ensures
        rig.home_captured().home_shoulder_side == rig.shoulder_side,
        rig.home_captured().home_mode == rig.mode,
        rig.home_captured().shoulder_side == rig.shoulder_side,
        rig.home_captured().mode == rig.mode,
        rig.home_captured().target_shoulder_side == rig.target_shoulder_side,
        rig.home_captured().target_mode == rig.target_mode,
        rig.reset_home().target_shoulder_side == rig.home_shoulder_side,
        rig.reset_home().target_mode == rig.home_mode,
        rig.reset_home().shoulder_side == rig.shoulder_side,
        rig.reset_home().mode == rig.mode,
        rig.reset_home().home_shoulder_side == rig.home_shoulder_side,
        rig.reset_home().home_mode == rig.home_mode,
{
}

/// With aiming enabled, aiming or an active lock-on always makes the rig
/// head for aim framing, whatever the persistent mode and the other
/// requests.
pub proof fn lemma_aim_or_lock_on_forces_aim(
    persistent_mode: ThirdPersonCameraMode,
    input: ThirdPersonCameraActionInput,
    lock_on_active: bool,
)
    requires
        input.aim || lock_on_active,
    ensures
        spec_effective_target_mode(persistent_mode, input, true, lock_on_active)
            == ThirdPersonCameraMode::Aim,
{
}

/// Without an aim request (aiming disabled, or neither aim nor lock-on), a
/// held shoulder gives shoulder framing and otherwise the persistent mode
/// stands; with aiming disabled the rig never heads for aim unless that is
/// its persistent mode.
pub proof fn lemma_effective_mode_without_aim(
    persistent_mode: ThirdPersonCameraMode,
    input: ThirdPersonCameraActionInput,
    aim_enabled: bool,
    lock_on_active: bool,
)
    requires
        !aim_enabled || (!input.aim && !lock_on_active),
    ensures
        input.shoulder_hold ==> spec_effective_target_mode(
            persistent_mode,
            input,
            aim_enabled,
            lock_on_active,
        ) == ThirdPersonCameraMode::Shoulder,
        !input.shoulder_hold ==> spec_effective_target_mode(
            persistent_mode,
            input,
            aim_enabled,
            lock_on_active,
        ) == persistent_mode,
{
}

/// The shown mode: aim whenever the aim blend is past half way, else
/// shoulder whenever the shoulder blend is, else center.
pub proof fn lemma_current_mode_priorities(aim_engaged: bool, shoulder_engaged: bool)
    ensures
        aim_engaged ==> spec_current_mode(aim_engaged, shoulder_engaged)
            == ThirdPersonCameraMode::Aim,
        !aim_engaged && shoulder_engaged ==> spec_current_mode(aim_engaged, shoulder_engaged)
            == ThirdPersonCameraMode::Shoulder,
        !aim_engaged && !shoulder_engaged ==> spec_current_mode(aim_engaged, shoulder_engaged)
            == ThirdPersonCameraMode::Center,
{
}

/// Blend targets: center framing has no lateral blend and every other mode
/// blends fully toward the shoulder's side; the aim blend is full exactly in
/// aim mode with aiming enabled, and empty otherwise.
pub proof fn lemma_blend_targets(mode: ThirdPersonCameraMode, side: ShoulderSide, aim_enabled: bool)
    ensures
        mode == ThirdPersonCameraMode::Center ==> spec_shoulder_blend_target(mode, side) == 0,
        mode != ThirdPersonCameraMode::Center ==> (side == ShoulderSide::Left
            ==> spec_shoulder_blend_target(mode, side) == -1),
        mode != ThirdPersonCameraMode::Center ==> (side == ShoulderSide::Right
            ==> spec_shoulder_blend_target(mode, side) == 1),
        (spec_aim_blend_target(mode, aim_enabled) == 1) <==> (aim_enabled && mode
            == ThirdPersonCameraMode::Aim),
        (spec_aim_blend_target(mode, aim_enabled) == 0) <==> !(aim_enabled && mode
            == ThirdPersonCameraMode::Aim),
{
}

/// A left default is adopted from untouched right-side defaults, and a
/// right default never changes the sides.
pub proof fn lemma_default_side_adoption(
    default_side: ShoulderSide,
    side: ShoulderSide,
    target_side: ShoulderSide,
    home_side: ShoulderSide,
)
    ensures
        default_side == ShoulderSide::Right ==> !adopts_left_default(
            default_side,
            side,
            target_side,
            home_side,
        ),
        side == ShoulderSide::Left || target_side == ShoulderSide::Left || home_side
            == ShoulderSide::Left ==> !adopts_left_default(default_side, side, target_side, home_side),
        default_side == ShoulderSide::Left && side == ShoulderSide::Right && target_side
            == ShoulderSide::Right && home_side == ShoulderSide::Right ==> adopts_left_default(
            default_side,
            side,
            target_side,
            home_side,
        ),
{
}

/// The cursor lock flips only on a granted request: without a request, off
/// the input camera, or with toggling disallowed, it stays as it was; with
/// all three it flips.
pub proof fn lemma_cursor_toggle_needs_request(
    cursor: ThirdPersonCameraCursorController,
    is_input_camera: bool,
    toggle_requested: bool,
)
    ensures
        !toggle_requested ==> cursor.toggled_state(is_input_camera, toggle_requested)
            == cursor.locked,
        !is_input_camera ==> cursor.toggled_state(is_input_camera, toggle_requested)
            == cursor.locked,
        !cursor.allow_toggle ==> cursor.toggled_state(is_input_camera, toggle_requested)
            == cursor.locked,
        is_input_camera && toggle_requested && cursor.allow_toggle ==> cursor.toggled_state(
            is_input_camera,
            toggle_requested,
        ) == !cursor.locked,
{
}

/// Without a toggle, a next or previous press always asks for a cycle (next
/// taking precedence), from the target kept after validation, including
/// when no target is held: the cycle then starts from the camera yaw.
pub proof fn lemma_cycle_requests_always_search(
    active_target: Option<u64>,
    active_target_valid: bool,
    input: ThirdPersonCameraActionInput,
)
    requires
        !input.lock_on_toggle,
    ensures
        input.lock_on_next ==> spec_lock_on_selection(
            true,
            true,
            active_target,
            active_target_valid,
            input,
        ).search == LockOnSearch::Next,
        !input.lock_on_next && input.lock_on_previous ==> spec_lock_on_selection(
            true,
            true,
            active_target,
            active_target_valid,
            input,
        ).search == LockOnSearch::Previous,
        !input.lock_on_next && !input.lock_on_previous ==> spec_lock_on_selection(
            true,
            true,
            active_target,
            active_target_valid,
            input,
        ).search == LockOnSearch::Keep,
        spec_lock_on_selection(true, true, active_target, active_target_valid, input).active_target
            == (if active_target_valid { active_target } else { None }),
{
}

/// Selection never keeps an invalid target, never invents one, and a
/// toggle always ends with nothing held before the search.
pub proof fn lemma_selection_keeps_only_valid_targets(
    lock_on_enabled: bool,
    follow_target_ready: bool,
    active_target: Option<u64>,
    active_target_valid: bool,
    input: ThirdPersonCameraActionInput,
)
    ensures
        ({
            let selection = spec_lock_on_selection(
                lock_on_enabled,
                follow_target_ready,
                active_target,
                active_target_valid,
                input,
            );
            &&& selection.active_target is Some ==> selection.active_target == active_target
                && active_target_valid && lock_on_enabled && follow_target_ready
            &&& input.lock_on_toggle ==> selection.active_target is None
            &&& !follow_target_ready ==> selection == (LockOnSelection {
                active_target: None,
                search: LockOnSearch::Keep,
            })
            &&& (input.lock_on_toggle && lock_on_enabled && follow_target_ready) ==> (
            selection.search == LockOnSearch::Best <==> !(active_target_valid
                && active_target is Some))
        }),
{
}

/// The camera frames a lock-on target exactly when lock-on is enabled, a
/// target is requested and its anchor is in range; it then frames that
/// target and keeps the request, and otherwise drops the request.
pub proof fn lemma_engagement_frames_requested_target(
    lock_on_enabled: bool,
    requested: Option<u64>,
    anchor_in_range: bool,
)
    ensures
        ({
            let e = spec_lock_on_engagement(lock_on_enabled, requested, anchor_in_range);
            &&& (e.engaged is Some) <==> (lock_on_enabled && requested is Some && anchor_in_range)
            &&& e.engaged is Some ==> e.engaged == requested && e.requested == requested
            &&& e.engaged is None ==> e.requested is None
        }),
{
}

} // verus!
