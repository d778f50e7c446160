use vstd::prelude::*;

verus! {

/// A camera that may receive input this frame, identified by its entity's
/// bit pattern.
#[derive(Clone, Copy, Debug, PartialEq, Eq, Structural)]
pub struct InputCameraCandidate {
    pub entity: u64,
    /// Render order of the camera.
    pub order: isize,
    /// Whether the camera is active.
    pub is_active: bool,
    /// Whether the rig is enabled in its settings.
    pub enabled: bool,
}

/// Only active cameras with an enabled rig can own input.
pub open spec fn is_eligible(candidate: InputCameraCandidate) -> bool {
    candidate.is_active && candidate.enabled
}

/// Cameras are ranked by render order, ties broken by entity bits.
pub open spec fn ranks_at_most(a: InputCameraCandidate, b: InputCameraCandidate) -> bool {
    a.order < b.order || (a.order == b.order && a.entity <= b.entity)
}

/// The camera that owns input: the eligible candidate of highest rank, or
/// none when no candidate is eligible.
pub fn select_active_input_camera(candidates: &Vec<InputCameraCandidate>) -> (active: Option<u64>)
    ensures
        active is None <==> (forall|i: int|
            0 <= i < candidates@.len() ==> !is_eligible(#[trigger] candidates@[i])),
        active matches Some(entity) ==> exists|i: int|
            0 <= i < candidates@.len() && is_eligible(#[trigger] candidates@[i])
                && candidates@[i].entity == entity && (forall|j: int|
                0 <= j < candidates@.len() && is_eligible(#[trigger] candidates@[j])
                    ==> ranks_at_most(candidates@[j], candidates@[i])),
{
    let mut best: Option<usize> = None;
    let mut k: usize = 0;
    while k < candidates.len()
        invariant
            k <= candidates@.len(),
            best is None <==> (forall|i: int| 0 <= i < k ==> !is_eligible(#[trigger] candidates@[i])),
            best matches Some(b) ==> b < k && is_eligible(candidates@[b as int]) && (forall|j: int|
                0 <= j < k && is_eligible(#[trigger] candidates@[j]) ==> ranks_at_most(
                    candidates@[j],
                    candidates@[b as int],
                )),
        decreases candidates@.len() - k,
    {
        let candidate = candidates[k];
        if candidate.is_active && candidate.enabled {
            match best {
                None => {
                    best = Some(k);
                },
                Some(b) => {
                    let current = candidates[b];
                    if current.order < candidate.order || (current.order == candidate.order
                        && current.entity <= candidate.entity) {
                        best = Some(k);
                    }
                },
            }
        }
        k = k + 1;
    }
    match best {
        None => None,
        Some(b) => Some(candidates[b].entity),
    }
}

/// Whether a camera's transient input is discarded after routing.
///
/// Cameras other than the input owner are cleared. When no camera owns input,
/// the core routing leaves every inbox alone, while the input-adapter routing
/// (`clear_without_owner`) clears them all.
pub fn route_clears_input(entity: u64, active: Option<u64>, clear_without_owner: bool) -> (clears: bool)
    ensures
        clears == (match active {
            Some(owner) => owner != entity,
            None => clear_without_owner,
        }),
{
    match active {
        Some(owner) => owner != entity,
        None => clear_without_owner,
    }
}

/// Ranking is by render order first and entity bits second: a higher order
/// always outranks a lower one, equal orders are ranked by entity bits, and
/// two cameras rank equally only when order and entity agree.
pub proof fn lemma_ranking_is_lexicographic(a: InputCameraCandidate, b: InputCameraCandidate)
    ensures
        a.order < b.order ==> ranks_at_most(a, b) && !ranks_at_most(b, a),
        a.order == b.order ==> (ranks_at_most(a, b) <==> a.entity <= b.entity),
        ranks_at_most(a, b) || ranks_at_most(b, a),
        ranks_at_most(a, b) && ranks_at_most(b, a) ==> a.order == b.order && a.entity == b.entity,
{
}

/// Inactive cameras and cameras with a disabled rig never own input.
pub proof fn lemma_only_active_enabled_cameras_own_input(candidate: InputCameraCandidate)
    ensures
        !candidate.is_active ==> !is_eligible(candidate),
        !candidate.enabled ==> !is_eligible(candidate),
        candidate.is_active && candidate.enabled ==> is_eligible(candidate),
{
}

} // verus!
