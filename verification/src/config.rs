use vstd::prelude::*;

verus! {

/// Yaw reference that idle recentering turns toward.
#[derive(Clone, Copy, Debug, PartialEq, Eq, Structural)]
pub enum FollowAlignment {
    Free,
    TargetForward,
    MovementDirection,
}

impl Default for FollowAlignment {
    fn default() -> (alignment: Self)
        ensures
            alignment == FollowAlignment::Free,
    {
        FollowAlignment::Free
    }
}

/// How an obstacle participates in obstruction checks.
#[derive(Clone, Copy, Debug, PartialEq, Eq, Structural)]
pub enum ObstacleType {
    Blocker,
    Occluder,
}

impl Default for ObstacleType {
    fn default() -> (kind: Self)
        ensures
            kind == ObstacleType::Blocker,
    {
        ObstacleType::Blocker
    }
}

/// Sample pattern used to shorten the camera boom.
#[derive(Clone, Copy, Debug, PartialEq, Eq, Structural)]
pub enum CollisionStrategy {
    SingleRay,
    MultiRay,
    SphereProbe,
}

impl Default for CollisionStrategy {
    fn default() -> (strategy: Self)
        ensures
            strategy == CollisionStrategy::MultiRay,
    {
        CollisionStrategy::MultiRay
    }
}

/// Direction of one obstruction sample in the camera's right/up plane, each
/// component `-1`, `0` or `1`.
///
/// For `MultiRay` the sample is `right * right_sign * offset_x + up *
/// up_sign * offset_y`. For `SphereProbe` it is the direction
/// `right * right_sign + up * up_sign`, normalised (zero stays zero), scaled
/// by the probe radius. `SingleRay` only has the center sample.
#[derive(Clone, Copy, Debug, PartialEq, Eq, Structural)]
pub struct ObstructionSample {
    pub right_sign: i8,
    pub up_sign: i8,
}

pub open spec fn sample(right_sign: int, up_sign: int) -> ObstructionSample {
    ObstructionSample { right_sign: right_sign as i8, up_sign: up_sign as i8 }
}

/// The samples of each strategy, in the order they are cast.
pub open spec fn spec_obstruction_samples(strategy: CollisionStrategy) -> Seq<ObstructionSample> {
    match strategy {
        CollisionStrategy::SingleRay => seq![sample(0, 0)],
        CollisionStrategy::MultiRay => seq![
            sample(0, 0),
            sample(1, 1),
            sample(1, -1),
            sample(-1, 1),
            sample(-1, -1),
        ],
        CollisionStrategy::SphereProbe => seq![
            sample(0, 0),
            sample(1, 0),
            sample(-1, 0),
            sample(0, 1),
            sample(0, -1),
            sample(1, 1),
            sample(1, -1),
            sample(-1, 1),
            sample(-1, -1),
        ],
    }
}

pub fn obstruction_samples(strategy: CollisionStrategy) -> (samples: Vec<ObstructionSample>)
    ensures
        samples@ == spec_obstruction_samples(strategy),
{
    let mut samples: Vec<ObstructionSample> = Vec::new();
    samples.push(ObstructionSample { right_sign: 0, up_sign: 0 });
    match strategy {
        CollisionStrategy::SingleRay => {},
        CollisionStrategy::MultiRay => {
            samples.push(ObstructionSample { right_sign: 1, up_sign: 1 });
            samples.push(ObstructionSample { right_sign: 1, up_sign: -1 });
            samples.push(ObstructionSample { right_sign: -1, up_sign: 1 });
            samples.push(ObstructionSample { right_sign: -1, up_sign: -1 });
        },
        CollisionStrategy::SphereProbe => {
            samples.push(ObstructionSample { right_sign: 1, up_sign: 0 });
            samples.push(ObstructionSample { right_sign: -1, up_sign: 0 });
            samples.push(ObstructionSample { right_sign: 0, up_sign: 1 });
            samples.push(ObstructionSample { right_sign: 0, up_sign: -1 });
            samples.push(ObstructionSample { right_sign: 1, up_sign: 1 });
            samples.push(ObstructionSample { right_sign: 1, up_sign: -1 });
            samples.push(ObstructionSample { right_sign: -1, up_sign: 1 });
            samples.push(ObstructionSample { right_sign: -1, up_sign: -1 });
        },
    }
    assert(samples@ =~= spec_obstruction_samples(strategy));
    samples
}

/// Share of the probe radius that pads an obstacle.
#[derive(Clone, Copy, Debug, PartialEq, Eq, Structural)]
pub enum PaddingShare {
    /// No padding.
    Zero,
    /// Half the probe radius.
    Half,
    /// The whole probe radius.
    Full,
}

/// Blockers get the full probe radius and occluders half of it, and only
/// when shape radius is included at all.
pub open spec fn spec_padding_share(include_shape_radius: bool, kind: ObstacleType) -> PaddingShare {
    if !include_shape_radius {
        PaddingShare::Zero
    } else if kind == ObstacleType::Blocker {
        PaddingShare::Full
    } else {
        PaddingShare::Half
    }
}

/// Halves of the probe radius a share stands for.
pub open spec fn share_halves(share: PaddingShare) -> int {
    match share {
        PaddingShare::Zero => 0,
        PaddingShare::Half => 1,
        PaddingShare::Full => 2,
    }
}

pub fn obstacle_padding_share(include_shape_radius: bool, kind: ObstacleType) -> (share: PaddingShare)
    ensures
        share == spec_padding_share(include_shape_radius, kind),
{
    if !include_shape_radius {
        return PaddingShare::Zero;
    }
    match kind {
        ObstacleType::Blocker => PaddingShare::Full,
        ObstacleType::Occluder => PaddingShare::Half,
    }
}

/// `first`, or `second` when `first` is absent.
pub open spec fn either<T>(first: Option<T>, second: Option<T>) -> Option<T> {
    match first {
        Some(value) => Some(value),
        None => second,
    }
}

/// The yaw references a follow target offers, from the yaw of its forward
/// direction and the yaw of its motion since the previous frame (each absent
/// when that direction is vertical or zero).
///
/// The manual reference (used by explicit recentering) prefers the forward
/// yaw when the target's rotation is followed and the motion yaw otherwise,
/// falling back to the other one. The idle reference (used by auto
/// recentering) follows the alignment setting with the same fallbacks, and
/// is absent for free alignment.
pub open spec fn spec_reference_yaws<T>(
    follow_rotation: bool,
    alignment: FollowAlignment,
    forward_yaw: Option<T>,
    movement_yaw: Option<T>,
) -> (Option<T>, Option<T>) {
    let forward_first = either(forward_yaw, movement_yaw);
    let movement_first = either(movement_yaw, forward_yaw);
    let manual = if follow_rotation { forward_first } else { movement_first };
    let idle = match alignment {
        FollowAlignment::Free => None,
        FollowAlignment::TargetForward => forward_first,
        FollowAlignment::MovementDirection => movement_first,
    };
    (manual, idle)
}

pub fn reference_yaws<T: Copy>(
    follow_rotation: bool,
    alignment: FollowAlignment,
    forward_yaw: Option<T>,
    movement_yaw: Option<T>,
) -> (yaws: (Option<T>, Option<T>))
    ensures
        yaws == spec_reference_yaws(follow_rotation, alignment, forward_yaw, movement_yaw),
{
    let forward_first = match forward_yaw {
        Some(yaw) => Some(yaw),
        None => movement_yaw,
    };
    let movement_first = match movement_yaw {
        Some(yaw) => Some(yaw),
        None => forward_yaw,
    };
    let manual = if follow_rotation { forward_first } else { movement_first };
    let idle = match alignment {
        FollowAlignment::Free => None,
        FollowAlignment::TargetForward => forward_first,
        FollowAlignment::MovementDirection => movement_first,
    };
    (manual, idle)
}

/// Every strategy casts the center ray first, and the patterns grow from
/// the single ray over the default multi-ray pattern to the sphere probe.
pub proof fn lemma_sample_patterns_nest(strategy: CollisionStrategy)
    ensures
        spec_obstruction_samples(strategy)[0] == sample(0, 0),
        spec_obstruction_samples(CollisionStrategy::SingleRay).len() == 1,
        spec_obstruction_samples(CollisionStrategy::MultiRay).len() == 5,
        spec_obstruction_samples(CollisionStrategy::SphereProbe).len() == 9,
{
}

/// The idle reference is one of the two offered yaws, and free alignment
/// never recenters.
pub proof fn lemma_idle_reference_is_offered<T>(
    follow_rotation: bool,
    alignment: FollowAlignment,
    forward_yaw: Option<T>,
    movement_yaw: Option<T>,
)
    ensures
        ({
            let idle = spec_reference_yaws(follow_rotation, alignment, forward_yaw, movement_yaw).1;
            &&& idle is None || idle == forward_yaw || idle == movement_yaw
            &&& alignment == FollowAlignment::Free ==> idle is None
            &&& (alignment != FollowAlignment::Free && (forward_yaw is Some || movement_yaw is Some))
                ==> idle is Some
        }),
{
}

/// The idle reference follows the alignment setting alone: target-forward
/// alignment turns to the forward yaw when there is one (else the motion
/// yaw), movement alignment to the motion yaw when there is one (else the
/// forward yaw), whether or not the target's rotation is followed. The
/// manual reference prefers the forward yaw exactly when the rotation is
/// followed, whatever the alignment.
pub proof fn lemma_reference_yaw_choices<T>(
    follow_rotation: bool,
    alignment: FollowAlignment,
    forward_yaw: Option<T>,
    movement_yaw: Option<T>,
)
    ensures
        ({
            let (manual, idle) = spec_reference_yaws(
                follow_rotation,
                alignment,
                forward_yaw,
                movement_yaw,
            );
            &&& alignment == FollowAlignment::TargetForward ==> idle == (if forward_yaw is Some {
                forward_yaw
            } else {
                movement_yaw
            })
            &&& alignment == FollowAlignment::MovementDirection ==> idle == (
            if movement_yaw is Some {
                movement_yaw
            } else {
                forward_yaw
            })
            &&& alignment == FollowAlignment::Free ==> idle is None
            &&& follow_rotation ==> manual == (if forward_yaw is Some {
                forward_yaw
            } else {
                movement_yaw
            })
            &&& !follow_rotation ==> manual == (if movement_yaw is Some {
                movement_yaw
            } else {
                forward_yaw
            })
        }),
{
}

/// Every sample component is a unit sign, the center ray is cast once and
/// first, multi-ray samples are the four diagonals, and the sphere probe
/// covers the four axis directions and the four diagonals; no direction is
/// cast twice.
pub proof fn lemma_sample_pattern_shape(strategy: CollisionStrategy)
    ensures
        ({
            let samples = spec_obstruction_samples(strategy);
            &&& forall|i: int|
                0 <= i < samples.len() ==> -1 <= (#[trigger] samples[i]).right_sign <= 1
                    && -1 <= samples[i].up_sign <= 1
            &&& forall|i: int, j: int|
                0 <= i < j < samples.len() ==> #[trigger] samples[i] != #[trigger] samples[j]
            &&& forall|i: int|
                1 <= i < samples.len() ==> (#[trigger] samples[i]) != sample(0, 0)
            &&& strategy == CollisionStrategy::MultiRay ==> forall|i: int|
                1 <= i < samples.len() ==> (#[trigger] samples[i]).right_sign != 0
                    && samples[i].up_sign != 0
            &&& strategy == CollisionStrategy::SphereProbe ==> forall|r: int, u: int|
                -1 <= r <= 1 && -1 <= u <= 1 ==> #[trigger] samples.contains(sample(r, u))
        }),
{
    let samples = spec_obstruction_samples(strategy);
    if strategy == CollisionStrategy::SphereProbe {
        assert forall|r: int, u: int| -1 <= r <= 1 && -1 <= u <= 1 implies #[trigger] samples.contains(
            sample(r, u),
        ) by {
            if r == 0 && u == 0 {
                assert(samples[0] == sample(r, u));
            } else if r == 1 && u == 0 {
                assert(samples[1] == sample(r, u));
            } else if r == -1 && u == 0 {
                assert(samples[2] == sample(r, u));
            } else if r == 0 && u == 1 {
                assert(samples[3] == sample(r, u));
            } else if r == 0 && u == -1 {
                assert(samples[4] == sample(r, u));
            } else if r == 1 && u == 1 {
                assert(samples[5] == sample(r, u));
            } else if r == 1 && u == -1 {
                assert(samples[6] == sample(r, u));
            } else if r == -1 && u == 1 {
                assert(samples[7] == sample(r, u));
            } else {
                assert(samples[8] == sample(r, u));
            }
        }
    }
}

/// Without shape radius no obstacle is padded; with it every obstacle is
/// padded, blockers by the whole probe radius and occluders by strictly less.
pub proof fn lemma_padding_order(include_shape_radius: bool, kind: ObstacleType)
    ensures
        !include_shape_radius ==> share_halves(spec_padding_share(include_shape_radius, kind)) == 0,
        include_shape_radius ==> share_halves(spec_padding_share(include_shape_radius, kind)) > 0,
        include_shape_radius ==> share_halves(
            spec_padding_share(include_shape_radius, ObstacleType::Blocker),
        ) == 2,
        include_shape_radius ==> share_halves(
            spec_padding_share(include_shape_radius, ObstacleType::Occluder),
        ) < share_halves(spec_padding_share(include_shape_radius, ObstacleType::Blocker)),
{
}

} // verus!
