use std::collections::HashSet;

use vstd::prelude::*;

use crate::action::{
    adopts_left_default, opposite_side, ShoulderSide, ThirdPersonCameraMode,
};

verus! {

/// Core orbit state of a camera rig.
///
/// `S` is the scalar type of the angles (radians) and distances; the rig
/// logic here only copies those values between the current, target and home
/// slots, so it holds for any scalar type.
#[derive(Clone, Copy, Debug)]
pub struct ThirdPersonCamera<S> {
    pub yaw: S,
    pub pitch: S,
    pub distance: S,
    pub target_yaw: S,
    pub target_pitch: S,
    pub target_distance: S,
    pub shoulder_side: ShoulderSide,
    pub target_shoulder_side: ShoulderSide,
    pub mode: ThirdPersonCameraMode,
    pub target_mode: ThirdPersonCameraMode,
    pub large_target_radius: S,
    pub home_yaw: S,
    pub home_pitch: S,
    pub home_distance: S,
    pub home_shoulder_side: ShoulderSide,
    pub home_mode: ThirdPersonCameraMode,
}

/// Mode a camera heads for after this frame's discrete requests: forcing
/// center, then forcing shoulder, then a shoulder toggle (which leaves center
/// framing for shoulder framing).
pub open spec fn mode_after_requests(
    target_mode: ThirdPersonCameraMode,
    raw_mode_center: bool,
    raw_mode_shoulder: bool,
    shoulder_toggle: bool,
) -> ThirdPersonCameraMode {
    let forced = if raw_mode_shoulder {
        ThirdPersonCameraMode::Shoulder
    } else if raw_mode_center {
        ThirdPersonCameraMode::Center
    } else {
        target_mode
    };
    if shoulder_toggle && forced == ThirdPersonCameraMode::Center {
        ThirdPersonCameraMode::Shoulder
    } else {
        forced
    }
}

impl<S> ThirdPersonCamera<S> {
    /// The camera with its current orbit, side and mode recorded as home.
    pub open spec fn home_captured(self) -> Self {
        ThirdPersonCamera {
            home_yaw: self.yaw,
            home_pitch: self.pitch,
            home_distance: self.distance,
            home_shoulder_side: self.shoulder_side,
            home_mode: self.mode,
            ..self
        }
    }

    /// The camera heading back to its home orbit, side and mode.
    pub open spec fn reset_home(self) -> Self {
        ThirdPersonCamera {
            target_yaw: self.home_yaw,
            target_pitch: self.home_pitch,
            target_distance: self.home_distance,
            target_shoulder_side: self.home_shoulder_side,
            target_mode: self.home_mode,
            ..self
        }
    }
}

impl<S: Copy> ThirdPersonCamera<S> {
    /// A camera at rest at the given distance and angles, with those values
    /// as its targets and its home, right shoulder, center framing, and a
    /// large-target radius of `S::default()`.
    pub fn new(distance: S, yaw: S, pitch: S) -> (camera: Self) where S: Default
        ensures
            camera.yaw == yaw,
            camera.pitch == pitch,
            camera.distance == distance,
            camera.target_yaw == yaw,
            camera.target_pitch == pitch,
            camera.target_distance == distance,
            camera.shoulder_side == ShoulderSide::Right,
            camera.target_shoulder_side == ShoulderSide::Right,
            camera.mode == ThirdPersonCameraMode::Center,
            camera.target_mode == ThirdPersonCameraMode::Center,
            call_ensures(S::default, (), camera.large_target_radius),
            camera.home_yaw == yaw,
            camera.home_pitch == pitch,
            camera.home_distance == distance,
            camera.home_shoulder_side == ShoulderSide::Right,
            camera.home_mode == ThirdPersonCameraMode::Center,
    {
        ThirdPersonCamera {
            yaw,
            pitch,
            distance,
            target_yaw: yaw,
            target_pitch: pitch,
            target_distance: distance,
            shoulder_side: ShoulderSide::Right,
            target_shoulder_side: ShoulderSide::Right,
            mode: ThirdPersonCameraMode::Center,
            target_mode: ThirdPersonCameraMode::Center,
            large_target_radius: S::default(),
            home_yaw: yaw,
            home_pitch: pitch,
            home_distance: distance,
            home_shoulder_side: ShoulderSide::Right,
            home_mode: ThirdPersonCameraMode::Center,
        }
    }

    pub fn with_mode(self, mode: ThirdPersonCameraMode) -> (camera: Self)
        ensures
            camera == (ThirdPersonCamera { mode, target_mode: mode, home_mode: mode, ..self }),
    {
        let mut camera = self;
        camera.mode = mode;
        camera.target_mode = mode;
        camera.home_mode = mode;
        camera
    }

    pub fn with_shoulder_side(self, side: ShoulderSide) -> (camera: Self)
        ensures
            camera == (ThirdPersonCamera {
                shoulder_side: side,
                target_shoulder_side: side,
                home_shoulder_side: side,
                ..self
            }),
    {
        let mut camera = self;
        camera.shoulder_side = side;
        camera.target_shoulder_side = side;
        camera.home_shoulder_side = side;
        camera
    }

    pub fn capture_home_from_current(&mut self)
        ensures
            *final(self) == old(self).home_captured(),
    {
        self.home_yaw = self.yaw;
        self.home_pitch = self.pitch;
        self.home_distance = self.distance;
        self.home_shoulder_side = self.shoulder_side;
        self.home_mode = self.mode;
    }

    pub fn reset_to_home(&mut self)
        ensures
            *final(self) == old(self).reset_home(),
    {
        self.target_yaw = self.home_yaw;
        self.target_pitch = self.home_pitch;
        self.target_distance = self.home_distance;
        self.target_shoulder_side = self.home_shoulder_side;
        self.target_mode = self.home_mode;
    }

    /// Side initialisation of a newly added camera: a left default side is
    /// adopted only while all three side fields still hold the right-side
    /// defaults.
    pub fn initialize_shoulder_side(&mut self, default_side: ShoulderSide)
        ensures
            adopts_left_default(
                default_side,
                old(self).shoulder_side,
                old(self).target_shoulder_side,
                old(self).home_shoulder_side,
            ) ==> *final(self) == (ThirdPersonCamera {
                shoulder_side: ShoulderSide::Left,
                target_shoulder_side: ShoulderSide::Left,
                home_shoulder_side: ShoulderSide::Left,
                ..*old(self)
            }),
            !adopts_left_default(
                default_side,
                old(self).shoulder_side,
                old(self).target_shoulder_side,
                old(self).home_shoulder_side,
            ) ==> *final(self) == *old(self),
    {
        if default_side == ShoulderSide::Left && self.shoulder_side == ShoulderSide::Right
            && self.target_shoulder_side == ShoulderSide::Right && self.home_shoulder_side
            == ShoulderSide::Right {
            self.shoulder_side = ShoulderSide::Left;
            self.target_shoulder_side = ShoulderSide::Left;
            self.home_shoulder_side = ShoulderSide::Left;
        }
    }

    /// The discrete part of a frame's input, applied after orbit and zoom:
    /// forced modes, the shoulder toggle, and recentering. Recentering (asked
    /// for, or owed after a retarget) turns the target yaw to the reference
    /// yaw when there is one, and the target pitch and distance to their
    /// home values.
    pub fn apply_discrete_input(
        &mut self,
        raw_mode_center: bool,
        raw_mode_shoulder: bool,
        shoulder_toggle: bool,
        recenter: bool,
        reference_yaw: Option<S>,
    )
        ensures
            final(self).target_mode == mode_after_requests(
                old(self).target_mode,
                raw_mode_center,
                raw_mode_shoulder,
                shoulder_toggle,
            ),
            final(self).target_shoulder_side == (if shoulder_toggle {
                opposite_side(old(self).target_shoulder_side)
            } else {
                old(self).target_shoulder_side
            }),
            final(self).target_yaw == (match (recenter, reference_yaw) {
                (true, Some(yaw)) => yaw,
                _ => old(self).target_yaw,
            }),
            final(self).target_pitch == (if recenter {
                old(self).home_pitch
            } else {
                old(self).target_pitch
            }),
            final(self).target_distance == (if recenter {
                old(self).home_distance
            } else {
                old(self).target_distance
            }),
            final(self).yaw == old(self).yaw,
            final(self).pitch == old(self).pitch,
            final(self).distance == old(self).distance,
            final(self).shoulder_side == old(self).shoulder_side,
            final(self).mode == old(self).mode,
            final(self).large_target_radius == old(self).large_target_radius,
            final(self).home_yaw == old(self).home_yaw,
            final(self).home_pitch == old(self).home_pitch,
            final(self).home_distance == old(self).home_distance,
            final(self).home_shoulder_side == old(self).home_shoulder_side,
            final(self).home_mode == old(self).home_mode,
    {
        if raw_mode_center {
            self.target_mode = ThirdPersonCameraMode::Center;
        }
        if raw_mode_shoulder {
            self.target_mode = ThirdPersonCameraMode::Shoulder;
        }
        if shoulder_toggle {
            self.target_shoulder_side = self.target_shoulder_side.opposite();
            if self.target_mode == ThirdPersonCameraMode::Center {
                self.target_mode = ThirdPersonCameraMode::Shoulder;
            }
        }
        if recenter {
            if let Some(yaw) = reference_yaw {
                self.target_yaw = yaw;
            }
            self.target_pitch = self.home_pitch;
            self.target_distance = self.home_distance;
        }
    }
}

/// Follow-target descriptor: the followed entity (by its bit pattern), a
/// target-local offset of vector type `V`, and the ignore rules for
/// obstruction checks.
#[derive(Clone, Debug)]
pub struct ThirdPersonCameraTarget<V> {
    pub target: u64,
    pub offset: V,
    pub follow_rotation: bool,
    pub enabled: bool,
    pub ignore_children: bool,
    pub ignored_entities: Vec<u64>,
    pub recenter_on_target_change: bool,
}

impl<V> ThirdPersonCameraTarget<V> {
    /// Follow `target` with a `V::default()` offset, following its rotation,
    /// enabled, ignoring its children and no other entity, and recentering
    /// when the target changes.
    pub fn new(target: u64) -> (descriptor: Self) where V: Default
        ensures
            descriptor.target == target,
            call_ensures(V::default, (), descriptor.offset),
            descriptor.follow_rotation,
            descriptor.enabled,
            descriptor.ignore_children,
            descriptor.ignored_entities@ == Seq::<u64>::empty(),
            descriptor.recenter_on_target_change,
    {
        ThirdPersonCameraTarget {
            target,
            offset: V::default(),
            follow_rotation: true,
            enabled: true,
            ignore_children: true,
            ignored_entities: Vec::new(),
            recenter_on_target_change: true,
        }
    }
}

/// Entities the obstruction cast of a camera skips: the camera itself,
/// every entity marked as ignored, and, with a follow target, the target,
/// its explicit ignore list, and (when it ignores children) its descendants.
pub open spec fn spec_obstruction_ignore_set<V>(
    camera: u64,
    marked: Seq<u64>,
    target: Option<ThirdPersonCameraTarget<V>>,
    target_descendants: Seq<u64>,
) -> Set<u64> {
    let base = set![camera] + marked.to_set();
    match target {
        Some(t) => base + set![t.target] + t.ignored_entities@.to_set() + (if t.ignore_children {
            target_descendants.to_set()
        } else {
            Set::empty()
        }),
        None => base,
    }
}

fn insert_all(set: &mut HashSet<u64>, entities: &Vec<u64>)
    ensures
        final(set)@ == old(set)@ + entities@.to_set(),
{
    broadcast use vstd::std_specs::hash::group_hash_axioms;

    let mut k: usize = 0;
    while k < entities.len()
        invariant
            k <= entities@.len(),
            set@ == old(set)@ + entities@.take(k as int).to_set(),
        decreases entities@.len() - k,
    {
        set.insert(entities[k]);
        proof {
            assert(entities@.take(k + 1) =~= entities@.take(k as int).push(entities@[k as int]));
            entities@.take(k as int).lemma_push_to_set_commute(entities@[k as int]);
        }
        k = k + 1;
        assert(set@ =~= old(set)@ + entities@.take(k as int).to_set());
    }
    assert(entities@.take(k as int) =~= entities@);
}

/// The set of entities a camera's obstruction cast skips.
pub fn obstruction_ignore_set<V>(
    camera: u64,
    marked: &Vec<u64>,
    target: Option<&ThirdPersonCameraTarget<V>>,
    target_descendants: &Vec<u64>,
) -> (ignored: HashSet<u64>)
    ensures
        ignored@ == spec_obstruction_ignore_set(
            camera,
            marked@,
            match target {
                Some(t) => Some(*t),
                None => None,
            },
            target_descendants@,
        ),
{
    broadcast use vstd::std_specs::hash::group_hash_axioms;

    let mut ignored: HashSet<u64> = HashSet::new();
    ignored.insert(camera);
    insert_all(&mut ignored, marked);
    match target {
        Some(t) => {
            ignored.insert(t.target);
            insert_all(&mut ignored, &t.ignored_entities);
            if t.ignore_children {
                insert_all(&mut ignored, target_descendants);
            }
            assert(ignored@ =~= spec_obstruction_ignore_set(
                camera,
                marked@,
                Some(*t),
                target_descendants@,
            ));
        },
        None => {
            assert(ignored@ =~= spec_obstruction_ignore_set(
                camera,
                marked@,
                None::<ThirdPersonCameraTarget<V>>,
                target_descendants@,
            ));
        },
    }
    ignored
}

/// Per-camera debug drawing toggles.
#[derive(Clone, Copy, Debug, PartialEq, Eq, Structural)]
pub struct ThirdPersonCameraDebug {
    pub enabled: bool,
    pub draw_pivot: bool,
    pub draw_desired: bool,
    pub draw_corrected: bool,
    pub draw_hits: bool,
}

impl Default for ThirdPersonCameraDebug {
    fn default() -> (debug: Self)
        ensures
            debug == (ThirdPersonCameraDebug {
                enabled: true,
                draw_pivot: true,
                draw_desired: true,
                draw_corrected: true,
                draw_hits: true,
            }),
    {
        ThirdPersonCameraDebug {
            enabled: true,
            draw_pivot: true,
            draw_desired: true,
            draw_corrected: true,
            draw_hits: true,
        }
    }
}

/// One debug-draw primitive of a camera, in drawing order.
#[derive(Clone, Copy, Debug, PartialEq, Eq, Structural)]
pub enum DebugPrimitive {
    /// Sphere at the pivot.
    PivotSphere,
    /// Sphere at the look target.
    LookTargetSphere,
    /// Line from the look target to the desired camera position.
    DesiredBoom,
    /// Sphere at the desired camera position.
    DesiredCameraSphere,
    /// Line from the look target to the corrected camera position.
    CorrectedBoom,
    /// Sphere at the corrected camera position.
    CorrectedCameraSphere,
    /// Sphere at the last obstruction hit point.
    HitSphere,
    /// Arrow along the last obstruction hit normal.
    HitNormalArrow,
}

pub open spec fn spec_debug_draw_plan(
    debug: ThirdPersonCameraDebug,
    has_hit_point: bool,
) -> Seq<DebugPrimitive> {
    if !debug.enabled {
        Seq::empty()
    } else {
        (if debug.draw_pivot {
            seq![DebugPrimitive::PivotSphere, DebugPrimitive::LookTargetSphere]
        } else {
            Seq::empty()
        }) + (if debug.draw_desired {
            seq![DebugPrimitive::DesiredBoom, DebugPrimitive::DesiredCameraSphere]
        } else {
            Seq::empty()
        }) + (if debug.draw_corrected {
            seq![DebugPrimitive::CorrectedBoom, DebugPrimitive::CorrectedCameraSphere]
        } else {
            Seq::empty()
        }) + (if debug.draw_hits && has_hit_point {
            seq![DebugPrimitive::HitSphere, DebugPrimitive::HitNormalArrow]
        } else {
            Seq::empty()
        })
    }
}

/// The primitives to draw for a camera, given its toggles and whether the
/// runtime holds a last hit point.
pub fn debug_draw_plan(debug: &ThirdPersonCameraDebug, has_hit_point: bool) -> (plan: Vec<DebugPrimitive>)
    ensures
        plan@ == spec_debug_draw_plan(*debug, has_hit_point),
{
    let mut plan: Vec<DebugPrimitive> = Vec::new();
    if !debug.enabled {
        return plan;
    }
    if debug.draw_pivot {
        plan.push(DebugPrimitive::PivotSphere);
        plan.push(DebugPrimitive::LookTargetSphere);
    }
    if debug.draw_desired {
        plan.push(DebugPrimitive::DesiredBoom);
        plan.push(DebugPrimitive::DesiredCameraSphere);
    }
    if debug.draw_corrected {
        plan.push(DebugPrimitive::CorrectedBoom);
        plan.push(DebugPrimitive::CorrectedCameraSphere);
    }
    if debug.draw_hits && has_hit_point {
        plan.push(DebugPrimitive::HitSphere);
        plan.push(DebugPrimitive::HitNormalArrow);
    }
    assert(plan@ =~= spec_debug_draw_plan(*debug, has_hit_point));
    plan
}

/// Resetting a camera right after capturing its home aims it back at the
/// orbit, side and mode it had, and changes nothing else.
pub proof fn lemma_camera_reset_after_capture<S>(camera: ThirdPersonCamera<S>)
    ensures
        camera.home_captured().reset_home() == (ThirdPersonCamera {
            target_yaw: camera.yaw,
            target_pitch: camera.pitch,
            target_distance: camera.distance,
            target_shoulder_side: camera.shoulder_side,
            target_mode: camera.mode,
            home_yaw: camera.yaw,
            home_pitch: camera.pitch,
            home_distance: camera.distance,
            home_shoulder_side: camera.shoulder_side,
            home_mode: camera.mode,
            ..camera
        }),
{
}

/// Resetting to home is idempotent.
pub proof fn lemma_camera_reset_is_idempotent<S>(camera: ThirdPersonCamera<S>)
    ensures
        camera.reset_home().reset_home() == camera.reset_home(),
{
}

/// A shoulder toggle never leaves the rig in center framing.
pub proof fn lemma_shoulder_toggle_leaves_center(
    target_mode: ThirdPersonCameraMode,
    raw_mode_center: bool,
    raw_mode_shoulder: bool,
)
    ensures
        mode_after_requests(target_mode, raw_mode_center, raw_mode_shoulder, true)
            != ThirdPersonCameraMode::Center,
{
}

/// A disabled debug component draws nothing; otherwise the plan holds two
/// primitives per enabled group, and the hit group only with a hit point.
pub proof fn lemma_debug_plan_size(debug: ThirdPersonCameraDebug, has_hit_point: bool)
    ensures
        spec_debug_draw_plan(debug, has_hit_point).len() == (if !debug.enabled {
            0
        } else {
            (if debug.draw_pivot { 2int } else { 0int }) + (if debug.draw_desired { 2int } else { 0int })
                + (if debug.draw_corrected { 2int } else { 0int }) + (if debug.draw_hits
                && has_hit_point { 2int } else { 0int })
        }),
{
}

/// Discrete mode requests: forcing shoulder wins, forcing center alone
/// gives center, a toggle alone moves center framing to shoulder framing and
/// leaves other modes, and without requests the mode stands.
pub proof fn lemma_mode_requests(
    target_mode: ThirdPersonCameraMode,
    raw_mode_center: bool,
    raw_mode_shoulder: bool,
    shoulder_toggle: bool,
)
    ensures
        raw_mode_shoulder ==> mode_after_requests(
            target_mode,
            raw_mode_center,
            raw_mode_shoulder,
            shoulder_toggle,
        ) == ThirdPersonCameraMode::Shoulder,
        raw_mode_center && !raw_mode_shoulder && !shoulder_toggle ==> mode_after_requests(
            target_mode,
            raw_mode_center,
            raw_mode_shoulder,
            shoulder_toggle,
        ) == ThirdPersonCameraMode::Center,
        !raw_mode_center && !raw_mode_shoulder && shoulder_toggle ==> mode_after_requests(
            target_mode,
            raw_mode_center,
            raw_mode_shoulder,
            shoulder_toggle,
        ) == (if target_mode == ThirdPersonCameraMode::Center {
            ThirdPersonCameraMode::Shoulder
        } else {
            target_mode
        }),
        !raw_mode_center && !raw_mode_shoulder && !shoulder_toggle ==> mode_after_requests(
            target_mode,
            raw_mode_center,
            raw_mode_shoulder,
            shoulder_toggle,
        ) == target_mode,
{
}

/// Capturing home only writes the home slots from the current ones;
/// resetting only writes the target slots from the home ones.
pub proof fn lemma_camera_capture_and_reset_slots<S>(camera: ThirdPersonCamera<S>)
    ensures
        camera.home_captured().home_yaw == camera.yaw,
        camera.home_captured().home_pitch == camera.pitch,
        camera.home_captured().home_distance == camera.distance,
        camera.home_captured().home_shoulder_side == camera.shoulder_side,
        camera.home_captured().home_mode == camera.mode,
        camera.home_captured().target_yaw == camera.target_yaw,
        camera.home_captured().target_pitch == camera.target_pitch,
        camera.home_captured().target_distance == camera.target_distance,
        camera.home_captured().target_mode == camera.target_mode,
        camera.home_captured().yaw == camera.yaw,
        camera.home_captured().distance == camera.distance,
        camera.reset_home().target_yaw == camera.home_yaw,
        camera.reset_home().target_pitch == camera.home_pitch,
        camera.reset_home().target_distance == camera.home_distance,
        camera.reset_home().target_shoulder_side == camera.home_shoulder_side,
        camera.reset_home().target_mode == camera.home_mode,
        camera.reset_home().yaw == camera.yaw,
        camera.reset_home().pitch == camera.pitch,
        camera.reset_home().distance == camera.distance,
        camera.reset_home().home_yaw == camera.home_yaw,
        camera.reset_home().home_mode == camera.home_mode,
{
}

/// The ignore set holds the camera, every marked entity, and with a target
/// its entity and explicit ignore list, plus its descendants exactly when it
/// ignores children; it holds nothing else.
pub proof fn lemma_ignore_set_members<V>(
    camera: u64,
    marked: Seq<u64>,
    target: Option<ThirdPersonCameraTarget<V>>,
    target_descendants: Seq<u64>,
    entity: u64,
)
    ensures
        ({
            let set = spec_obstruction_ignore_set(camera, marked, target, target_descendants);
            &&& set.contains(camera)
            &&& marked.contains(entity) ==> set.contains(entity)
            &&& set.contains(entity) <==> (entity == camera || marked.contains(entity) || match target {
                Some(t) => entity == t.target || t.ignored_entities@.contains(entity) || (
                t.ignore_children && target_descendants.contains(entity)),
                None => false,
            })
        }),
{
}

/// A concatenation holds exactly what either part holds.
proof fn lemma_concat_contains<A>(a: Seq<A>, b: Seq<A>, p: A)
    ensures
        (a + b).contains(p) <==> (a.contains(p) || b.contains(p)),
{
    if (a + b).contains(p) {
        let i = choose|i: int| 0 <= i < (a + b).len() && (a + b)[i] == p;
        if i < a.len() {
            assert(a[i] == p);
        } else {
            assert(b[i - a.len()] == p);
        }
    }
    if a.contains(p) {
        let i = choose|i: int| 0 <= i < a.len() && a[i] == p;
        assert((a + b)[i] == p);
    }
    if b.contains(p) {
        let i = choose|i: int| 0 <= i < b.len() && b[i] == p;
        assert((a + b)[a.len() + i] == p);
    }
}

/// A drawing group holds exactly its two primitives when drawn, and nothing
/// otherwise.
proof fn lemma_group_contains(on: bool, x: DebugPrimitive, y: DebugPrimitive, p: DebugPrimitive)
    ensures
        (if on { seq![x, y] } else { Seq::empty() }).contains(p) <==> (on && (p == x || p == y)),
{
    let g = if on { seq![x, y] } else { Seq::<DebugPrimitive>::empty() };
    if on {
        assert(g[0] == x);
        assert(g[1] == y);
        if g.contains(p) {
            let i = choose|i: int| 0 <= i < g.len() && g[i] == p;
        }
    }
}

/// Each primitive group is drawn exactly when debug drawing is enabled and
/// its toggle is on; the hit group also needs a hit point.
pub proof fn lemma_debug_plan_members(
    debug: ThirdPersonCameraDebug,
    has_hit_point: bool,
    p: DebugPrimitive,
)
    ensures
        spec_debug_draw_plan(debug, has_hit_point).contains(p) <==> debug.enabled && (match p {
            DebugPrimitive::PivotSphere | DebugPrimitive::LookTargetSphere => debug.draw_pivot,
            DebugPrimitive::DesiredBoom | DebugPrimitive::DesiredCameraSphere => debug.draw_desired,
            DebugPrimitive::CorrectedBoom | DebugPrimitive::CorrectedCameraSphere => debug.draw_corrected,
            DebugPrimitive::HitSphere | DebugPrimitive::HitNormalArrow => debug.draw_hits
                && has_hit_point,
        }),
{
    let a = if debug.draw_pivot {
        seq![DebugPrimitive::PivotSphere, DebugPrimitive::LookTargetSphere]
    } else {
        Seq::empty()
    };
    let b = if debug.draw_desired {
        seq![DebugPrimitive::DesiredBoom, DebugPrimitive::DesiredCameraSphere]
    } else {
        Seq::empty()
    };
    let c = if debug.draw_corrected {
        seq![DebugPrimitive::CorrectedBoom, DebugPrimitive::CorrectedCameraSphere]
    } else {
        Seq::empty()
    };
    let d = if debug.draw_hits && has_hit_point {
        seq![DebugPrimitive::HitSphere, DebugPrimitive::HitNormalArrow]
    } else {
        Seq::empty()
    };
    if debug.enabled {
        lemma_concat_contains(a + b + c, d, p);
        lemma_concat_contains(a + b, c, p);
        lemma_concat_contains(a, b, p);
        lemma_group_contains(debug.draw_pivot, DebugPrimitive::PivotSphere, DebugPrimitive::LookTargetSphere, p);
        lemma_group_contains(debug.draw_desired, DebugPrimitive::DesiredBoom, DebugPrimitive::DesiredCameraSphere, p);
        lemma_group_contains(debug.draw_corrected, DebugPrimitive::CorrectedBoom, DebugPrimitive::CorrectedCameraSphere, p);
        lemma_group_contains(debug.draw_hits && has_hit_point, DebugPrimitive::HitSphere, DebugPrimitive::HitNormalArrow, p);
    }
}

} // verus!
