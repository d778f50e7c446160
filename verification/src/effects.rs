use vstd::prelude::*;

verus! {

/// A single additive camera effect layer: camera-local translation and
/// rotation offsets of vector type `V`, a field-of-view delta of scalar type
/// `S`, a blend weight, and an on/off switch.
#[derive(Clone, Copy, Debug)]
pub struct CameraEffectLayer<V, S> {
    pub translation: V,
    pub rotation: V,
    pub fov_delta: S,
    pub weight: S,
    pub enabled: bool,
}

impl<V, S> CameraEffectLayer<V, S> {
    /// An enabled layer with the given offsets and weight.
    pub fn weighted(translation: V, rotation: V, fov_delta: S, weight: S) -> (layer: Self)
        ensures
            layer == (CameraEffectLayer { translation, rotation, fov_delta, weight, enabled: true }),
    {
        CameraEffectLayer { translation, rotation, fov_delta, weight, enabled: true }
    }
}

impl<V: Default, S: Default + From<u8>> Default for CameraEffectLayer<V, S> {
    /// An enabled layer with default (zero) offsets and field-of-view delta
    /// and a weight of one.
    fn default() -> (layer: Self)
        ensures
            call_ensures(V::default, (), layer.translation),
            call_ensures(V::default, (), layer.rotation),
            call_ensures(S::default, (), layer.fov_delta),
            call_ensures(S::from, (1u8,), layer.weight),
            layer.enabled,
    {
        CameraEffectLayer {
            translation: V::default(),
            rotation: V::default(),
            fov_delta: S::default(),
            weight: S::from(1u8),
            enabled: true,
        }
    }
}

/// An effect layer stored under a name.
#[derive(Clone, Debug)]
pub struct NamedEffectLayer<V, S> {
    pub name: String,
    pub layer: CameraEffectLayer<V, S>,
}

/// Named effect layers of one camera, composed additively on its final
/// transform.
#[derive(Clone, Debug)]
pub struct ThirdPersonCameraCustomEffects<V, S> {
    pub layers: Vec<NamedEffectLayer<V, S>>,
}

/// `i` is the first position of `layers` that holds `name`.
pub open spec fn is_first_match<V, S>(
    layers: Seq<NamedEffectLayer<V, S>>,
    name: Seq<char>,
    i: int,
) -> bool {
    &&& 0 <= i < layers.len()
    &&& layers[i].name@ == name
    &&& forall|j: int| 0 <= j < i ==> (#[trigger] layers[j]).name@ != name
}

/// Some position of `layers` holds `name`.
pub open spec fn holds_name<V, S>(layers: Seq<NamedEffectLayer<V, S>>, name: Seq<char>) -> bool {
    exists|i: int| 0 <= i < layers.len() && (#[trigger] layers[i]).name@ == name
}

/// The first position that holds `name`, if any.
pub open spec fn position_of<V, S>(layers: Seq<NamedEffectLayer<V, S>>, name: Seq<char>) -> Option<int> {
    if exists|i: int| is_first_match(layers, name, i) {
        Some(choose|i: int| is_first_match(layers, name, i))
    } else {
        None
    }
}

/// The layer stored under `name` (at its first position), if any.
pub open spec fn lookup<V, S>(layers: Seq<NamedEffectLayer<V, S>>, name: Seq<char>) -> Option<
    CameraEffectLayer<V, S>,
> {
    match position_of(layers, name) {
        Some(i) => Some(layers[i].layer),
        None => None,
    }
}

/// Number of enabled layers.
pub open spec fn count_enabled<V, S>(layers: Seq<NamedEffectLayer<V, S>>) -> nat
    decreases layers.len(),
{
    if layers.len() == 0 {
        0
    } else {
        count_enabled(layers.drop_last()) + if layers.last().layer.enabled {
            1nat
        } else {
            0nat
        }
    }
}

/// The layers after storing `layer` under `name`: the first entry holding
/// the name gets the new layer, or a new entry is appended.
pub open spec fn layers_after_set<V, S>(
    layers: Seq<NamedEffectLayer<V, S>>,
    name: String,
    layer: CameraEffectLayer<V, S>,
) -> Seq<NamedEffectLayer<V, S>> {
    match position_of(layers, name@) {
        Some(i) => layers.update(i, NamedEffectLayer { name: layers[i].name, layer }),
        None => layers.push(NamedEffectLayer { name, layer }),
    }
}

/// The layers after removing the first entry holding `name`, whose place is
/// taken by the last entry.
pub open spec fn layers_after_remove<V, S>(
    layers: Seq<NamedEffectLayer<V, S>>,
    name: Seq<char>,
) -> Seq<NamedEffectLayer<V, S>> {
    match position_of(layers, name) {
        Some(i) => layers.update(i, layers.last()).drop_last(),
        None => layers,
    }
}

/// No two layers share a name.
pub open spec fn names_unique<V, S>(layers: Seq<NamedEffectLayer<V, S>>) -> bool {
    forall|i: int, j: int|
        0 <= i < layers.len() && 0 <= j < layers.len() && i != j ==> (#[trigger] layers[i]).name@
            != (#[trigger] layers[j]).name@
}

/// A first match is the only first match.
pub proof fn lemma_first_match_unique<V, S>(
    layers: Seq<NamedEffectLayer<V, S>>,
    name: Seq<char>,
    i: int,
)
    requires
        is_first_match(layers, name, i),
    ensures
        position_of(layers, name) == Some(i),
{
    let k = choose|k: int| is_first_match(layers, name, k);
    assert(is_first_match(layers, name, k));
    if k < i {
        assert(layers[k].name@ != name);
    } else if i < k {
        assert(layers[i].name@ != name);
    }
}

/// Without a position holding `name` there is no first match.
pub proof fn lemma_no_match_no_position<V, S>(layers: Seq<NamedEffectLayer<V, S>>, name: Seq<char>)
    requires
        forall|j: int| 0 <= j < layers.len() ==> (#[trigger] layers[j]).name@ != name,
    ensures
        position_of(layers, name) is None,
{
    if exists|i: int| is_first_match(layers, name, i) {
        let i = choose|i: int| is_first_match(layers, name, i);
        assert(layers[i].name@ == name);
    }
}

/// A position holding `name` means there is a first one.
pub proof fn lemma_match_has_first<V, S>(layers: Seq<NamedEffectLayer<V, S>>, name: Seq<char>, k: int)
    requires
        0 <= k < layers.len(),
        layers[k].name@ == name,
    ensures
        exists|i: int| is_first_match(layers, name, i),
    decreases k,
{
    if exists|j: int| 0 <= j < k && (#[trigger] layers[j]).name@ == name {
        let j = choose|j: int| 0 <= j < k && (#[trigger] layers[j]).name@ == name;
        lemma_match_has_first(layers, name, j);
    } else {
        assert(is_first_match(layers, name, k));
    }
}

/// Without a first position, no position holds `name`.
pub proof fn lemma_no_position_no_match<V, S>(layers: Seq<NamedEffectLayer<V, S>>, name: Seq<char>)
    requires
        position_of(layers, name) is None,
    ensures
        forall|j: int| 0 <= j < layers.len() ==> (#[trigger] layers[j]).name@ != name,
{
    assert forall|j: int| 0 <= j < layers.len() implies (#[trigger] layers[j]).name@ != name by {
        if layers[j].name@ == name {
            lemma_match_has_first(layers, name, j);
        }
    }
}

/// Reading a name right after storing a layer under it gives that layer.
pub proof fn lemma_get_after_set<V, S>(
    layers: Seq<NamedEffectLayer<V, S>>,
    name: String,
    layer: CameraEffectLayer<V, S>,
)
    ensures
        lookup(layers_after_set(layers, name, layer), name@) == Some(layer),
{
    let after = layers_after_set(layers, name, layer);
    match position_of(layers, name@) {
        Some(i) => {
            let k = choose|k: int| is_first_match(layers, name@, k);
            assert(is_first_match(layers, name@, k));
            assert(is_first_match(after, name@, i));
            lemma_first_match_unique(after, name@, i);
        },
        None => {
            lemma_no_position_no_match(layers, name@);
            let n = layers.len() as int;
            assert(is_first_match(after, name@, n));
            lemma_first_match_unique(after, name@, n);
        },
    }
}

/// Writing a new layer into the entry a name reads from (as `get_mut` does)
/// makes the name read the new layer.
pub proof fn lemma_get_after_write<V, S>(
    layers: Seq<NamedEffectLayer<V, S>>,
    name: Seq<char>,
    layer: CameraEffectLayer<V, S>,
)
    requires
        position_of(layers, name) is Some,
    ensures
        ({
            let i = position_of(layers, name)->0;
            lookup(layers.update(i, NamedEffectLayer { name: layers[i].name, layer }), name)
                == Some(layer)
        }),
{
    let i = position_of(layers, name)->0;
    let k = choose|k: int| is_first_match(layers, name, k);
    assert(is_first_match(layers, name, k));
    let after = layers.update(i, NamedEffectLayer { name: layers[i].name, layer });
    assert(is_first_match(after, name, i));
    lemma_first_match_unique(after, name, i);
}

/// Storing a layer under one name leaves what every other name reads.
pub proof fn lemma_set_keeps_other_names<V, S>(
    layers: Seq<NamedEffectLayer<V, S>>,
    name: String,
    layer: CameraEffectLayer<V, S>,
    other: Seq<char>,
)
    requires
        other != name@,
    ensures
        lookup(layers_after_set(layers, name, layer), other) == lookup(layers, other),
{
    let after = layers_after_set(layers, name, layer);
    assert forall|j: int| 0 <= j < layers.len() implies (#[trigger] after[j]).name@ == layers[j].name@ by {
        match position_of(layers, name@) {
            Some(i) => {
                let k = choose|k: int| is_first_match(layers, name@, k);
                assert(is_first_match(layers, name@, k));
            },
            None => {},
        }
    }
    match position_of(layers, other) {
        Some(p) => {
            let k = choose|k: int| is_first_match(layers, other, k);
            assert(is_first_match(layers, other, k));
            assert(is_first_match(after, other, p));
            lemma_first_match_unique(after, other, p);
            match position_of(layers, name@) {
                Some(i) => {
                    let q = choose|q: int| is_first_match(layers, name@, q);
                    assert(is_first_match(layers, name@, q));
                    assert(i != p);
                },
                None => {},
            }
        },
        None => {
            lemma_no_position_no_match(layers, other);
            assert forall|j: int| 0 <= j < after.len() implies (#[trigger] after[j]).name@ != other by {
                if j < layers.len() {
                    assert(after[j].name@ == layers[j].name@);
                }
            }
            lemma_no_match_no_position(after, other);
        },
    }
}

/// Storing a layer keeps names unique.
pub proof fn lemma_set_keeps_names_unique<V, S>(
    layers: Seq<NamedEffectLayer<V, S>>,
    name: String,
    layer: CameraEffectLayer<V, S>,
)
    requires
        names_unique(layers),
    ensures
        names_unique(layers_after_set(layers, name, layer)),
{
    let after = layers_after_set(layers, name, layer);
    match position_of(layers, name@) {
        Some(i) => {
            let k = choose|k: int| is_first_match(layers, name@, k);
            assert(is_first_match(layers, name@, k));
            assert forall|a: int, b: int|
                0 <= a < after.len() && 0 <= b < after.len() && a != b implies (#[trigger] after[a]).name@
                != (#[trigger] after[b]).name@ by {
                assert(after[a].name@ == layers[a].name@);
                assert(after[b].name@ == layers[b].name@);
            }
        },
        None => {
            lemma_no_position_no_match(layers, name@);
            assert forall|a: int, b: int|
                0 <= a < after.len() && 0 <= b < after.len() && a != b implies (#[trigger] after[a]).name@
                != (#[trigger] after[b]).name@ by {
                if a < layers.len() && b < layers.len() {
                    assert(after[a] == layers[a]);
                    assert(after[b] == layers[b]);
                } else if a < layers.len() {
                    assert(after[a] == layers[a]);
                } else {
                    assert(after[b] == layers[b]);
                }
            }
        },
    }
}

/// With unique names, a removed name reads as absent afterwards.
pub proof fn lemma_get_after_remove<V, S>(layers: Seq<NamedEffectLayer<V, S>>, name: Seq<char>)
    requires
        names_unique(layers),
    ensures
        lookup(layers_after_remove(layers, name), name) is None,
{
    let after = layers_after_remove(layers, name);
    match position_of(layers, name) {
        Some(i) => {
            let k = choose|k: int| is_first_match(layers, name, k);
            assert(is_first_match(layers, name, k));
            let last = layers.len() - 1;
            assert forall|j: int| 0 <= j < after.len() implies (#[trigger] after[j]).name@ != name by {
                if j == i {
                    assert(after[j] == layers[last]);
                    assert(last != i);
                } else {
                    assert(after[j] == layers[j]);
                }
            }
            lemma_no_match_no_position(after, name);
        },
        None => {},
    }
}

/// Storing then removing a name, in a table with unique names, leaves the
/// name absent.
pub proof fn lemma_remove_after_set<V, S>(
    layers: Seq<NamedEffectLayer<V, S>>,
    name: String,
    layer: CameraEffectLayer<V, S>,
)
    requires
        names_unique(layers),
    ensures
        lookup(layers_after_set(layers, name, layer), name@) == Some(layer),
        lookup(layers_after_remove(layers_after_set(layers, name, layer), name@), name@) is None,
{
    lemma_get_after_set(layers, name, layer);
    lemma_set_keeps_names_unique(layers, name, layer);
    lemma_get_after_remove(layers_after_set(layers, name, layer), name@);
}

/// An empty table has no enabled layer, appending a layer adds one to the
/// count exactly when that layer is enabled, and the count never exceeds the
/// number of layers.
pub proof fn lemma_count_enabled_push<V, S>(
    layers: Seq<NamedEffectLayer<V, S>>,
    entry: NamedEffectLayer<V, S>,
)
    ensures
        count_enabled(Seq::<NamedEffectLayer<V, S>>::empty()) == 0,
        count_enabled(layers.push(entry)) == count_enabled(layers) + (if entry.layer.enabled {
            1nat
        } else {
            0nat
        }),
        count_enabled(layers) <= layers.len(),
    decreases layers.len(),
{
    assert(layers.push(entry).drop_last() =~= layers);
    if layers.len() > 0 {
        lemma_count_enabled_push(layers.drop_last(), layers.last());
    }
}

/// Count of the enabled layers by position: it is zero exactly when no
/// layer is enabled, and every layer counts when all are enabled.
pub proof fn lemma_count_enabled_bounds<V, S>(layers: Seq<NamedEffectLayer<V, S>>)
    ensures
        (count_enabled(layers) == 0) <==> (forall|i: int|
            0 <= i < layers.len() ==> !(#[trigger] layers[i]).layer.enabled),
        (forall|i: int| 0 <= i < layers.len() ==> (#[trigger] layers[i]).layer.enabled) ==> count_enabled(
            layers,
        ) == layers.len(),
    decreases layers.len(),
{
    if layers.len() > 0 {
        let init = layers.drop_last();
        lemma_count_enabled_bounds(init);
        lemma_count_enabled_push(init, layers.last());
        assert(init.push(layers.last()) =~= layers);
        assert forall|i: int| 0 <= i < init.len() implies #[trigger] init[i] == layers[i] by {}
        if count_enabled(layers) == 0 {
            assert forall|i: int| 0 <= i < layers.len() implies !(#[trigger] layers[i]).layer.enabled by {
                if i < init.len() {
                    assert(init[i] == layers[i]);
                }
            }
        }
        if exists|i: int| 0 <= i < layers.len() && (#[trigger] layers[i]).layer.enabled {
            let i = choose|i: int| 0 <= i < layers.len() && (#[trigger] layers[i]).layer.enabled;
            if i < init.len() {
                assert(init[i] == layers[i]);
            }
        }
    }
}

/// Storing a layer under a name already present keeps the number of layers
/// and replaces only that entry's layer; storing under a new name appends
/// one entry.
pub proof fn lemma_set_length<V, S>(
    layers: Seq<NamedEffectLayer<V, S>>,
    name: String,
    layer: CameraEffectLayer<V, S>,
)
    ensures
        holds_name(layers, name@) ==> layers_after_set(layers, name, layer).len() == layers.len(),
        !holds_name(layers, name@) ==> layers_after_set(layers, name, layer).len() == layers.len()
            + 1,
        !holds_name(layers, name@) ==> layers_after_set(layers, name, layer).last() == (
        NamedEffectLayer { name, layer }),
        forall|j: int|
            0 <= j < layers.len() ==> (#[trigger] layers_after_set(layers, name, layer)[j]).name
                == layers[j].name,
{
    match position_of(layers, name@) {
        Some(i) => {
            let k = choose|k: int| is_first_match(layers, name@, k);
            assert(is_first_match(layers, name@, k));
        },
        None => {
            lemma_no_position_no_match(layers, name@);
        },
    }
    if holds_name(layers, name@) {
        let j = choose|j: int| 0 <= j < layers.len() && (#[trigger] layers[j]).name@ == name@;
        lemma_match_has_first(layers, name@, j);
    }
}

/// Removing a name that is present drops exactly one entry; removing an
/// absent name changes nothing.
pub proof fn lemma_remove_length<V, S>(layers: Seq<NamedEffectLayer<V, S>>, name: Seq<char>)
    ensures
        holds_name(layers, name) ==> layers_after_remove(layers, name).len() == layers.len() - 1,
        !holds_name(layers, name) ==> layers_after_remove(layers, name) == layers,
        !holds_name(layers, name) ==> lookup(layers, name) is None,
{
    if holds_name(layers, name) {
        let j = choose|j: int| 0 <= j < layers.len() && (#[trigger] layers[j]).name@ == name;
        lemma_match_has_first(layers, name, j);
        let k = choose|k: int| is_first_match(layers, name, k);
        assert(is_first_match(layers, name, k));
    } else {
        lemma_no_match_no_position(layers, name);
    }
}

/// A name reads the layer at the first position holding it, and reads
/// nothing when no position holds it.
pub proof fn lemma_lookup_reads_first_entry<V, S>(
    layers: Seq<NamedEffectLayer<V, S>>,
    name: Seq<char>,
    i: int,
)
    ensures
        (0 <= i < layers.len() && layers[i].name@ == name && forall|j: int|
            0 <= j < i ==> (#[trigger] layers[j]).name@ != name) ==> lookup(layers, name) == Some(
            layers[i].layer,
        ),
        (forall|j: int| 0 <= j < layers.len() ==> (#[trigger] layers[j]).name@ != name) ==> lookup(
            layers,
            name,
        ) is None,
{
    if is_first_match(layers, name, i) {
        lemma_first_match_unique(layers, name, i);
    }
    if forall|j: int| 0 <= j < layers.len() ==> (#[trigger] layers[j]).name@ != name {
        lemma_no_match_no_position(layers, name);
    }
}

/// In a table with unique names, removing one name leaves what every other
/// name reads.
pub proof fn lemma_remove_keeps_other_names<V, S>(
    layers: Seq<NamedEffectLayer<V, S>>,
    name: Seq<char>,
    other: Seq<char>,
)
    requires
        names_unique(layers),
        other != name,
    ensures
        lookup(layers_after_remove(layers, name), other) == lookup(layers, other),
{
    let after = layers_after_remove(layers, name);
    match position_of(layers, name) {
        None => {},
        Some(i) => {
            let k = choose|k: int| is_first_match(layers, name, k);
            assert(is_first_match(layers, name, k));
            let last = layers.len() - 1;
            if holds_name(layers, other) {
                let j0 = choose|j: int| 0 <= j < layers.len() && (#[trigger] layers[j]).name@ == other;
                lemma_match_has_first(layers, other, j0);
                let j = choose|j: int| is_first_match(layers, other, j);
                assert(is_first_match(layers, other, j));
                lemma_first_match_unique(layers, other, j);
                assert(j != i);
                let p = if j == last { i } else { j };
                assert(after[p] == layers[j]);
                assert forall|q: int| 0 <= q < after.len() && q != p implies (#[trigger] after[q]).name@
                    != other by {
                    if q == i {
                        assert(after[q] == layers[last]);
                        assert(last != j);
                    } else {
                        assert(after[q] == layers[q]);
                        assert(q != j);
                    }
                }
                assert(is_first_match(after, other, p));
                lemma_first_match_unique(after, other, p);
            } else {
                assert forall|q: int| 0 <= q < after.len() implies (#[trigger] after[q]).name@ != other by {
                    if q == i {
                        assert(after[q] == layers[last]);
                    } else {
                        assert(after[q] == layers[q]);
                    }
                }
                lemma_no_match_no_position(after, other);
                lemma_no_match_no_position(layers, other);
            }
        },
    }
}

impl<V, S> ThirdPersonCameraCustomEffects<V, S> {
    /// Position of the first layer named `name`, scanning from the front.
    fn find_position(&self, name: &String) -> (found: Option<usize>)
        ensures
            match found {
                Some(i) => is_first_match(self.layers@, name@, i as int),
                None => forall|j: int|
                    0 <= j < self.layers@.len() ==> (#[trigger] self.layers@[j]).name@ != name@,
            },
    {
        let mut k: usize = 0;
        while k < self.layers.len()
            invariant
                k <= self.layers@.len(),
                forall|j: int| 0 <= j < k ==> (#[trigger] self.layers@[j]).name@ != name@,
            decreases self.layers@.len() - k,
        {
            if self.layers[k].name == *name {
                return Some(k);
            }
            k = k + 1;
        }
        None
    }

    /// Insert or replace a named layer: a layer already stored under the name
    /// (its first occurrence) is replaced in place; otherwise a new entry is
    /// appended.
    pub fn set(&mut self, name: String, layer: CameraEffectLayer<V, S>)
        ensures
            final(self).layers@ == layers_after_set(old(self).layers@, name, layer),
    {
        match self.find_position(&name) {
            Some(i) => {
                proof {
                    lemma_first_match_unique(self.layers@, name@, i as int);
                }
                self.layers[i].layer = layer;
            },
            None => {
                proof {
                    lemma_no_match_no_position(self.layers@, name@);
                }
                self.layers.push(NamedEffectLayer { name, layer });
            },
        }
    }

    /// Remove a named layer (its first occurrence), returning it if it
    /// existed. The last layer takes the removed layer's place.
    pub fn remove(&mut self, name: &str) -> (removed: Option<CameraEffectLayer<V, S>>)
        ensures
            removed == lookup(old(self).layers@, name@),
            final(self).layers@ == layers_after_remove(old(self).layers@, name@),
    {
        let key = name.to_owned();
        match self.find_position(&key) {
            Some(i) => {
                proof {
                    lemma_first_match_unique(self.layers@, name@, i as int);
                }
                let entry = self.layers.swap_remove(i);
                Some(entry.layer)
            },
            None => {
                proof {
                    lemma_no_match_no_position(self.layers@, name@);
                }
                None
            },
        }
    }

    /// The layer stored under `name` (its first occurrence), if any.
    pub fn get(&self, name: &str) -> (found: Option<&CameraEffectLayer<V, S>>)
        ensures
            match found {
                Some(layer) => lookup(self.layers@, name@) == Some(*layer),
                None => lookup(self.layers@, name@) is None,
            },
    {
        let key = name.to_owned();
        match self.find_position(&key) {
            Some(i) => {
                proof {
                    lemma_first_match_unique(self.layers@, name@, i as int);
                }
                Some(&self.layers[i].layer)
            },
            None => {
                proof {
                    lemma_no_match_no_position(self.layers@, name@);
                }
                None
            },
        }
    }

    /// Mutable access to the layer stored under `name` (its first
    /// occurrence), if any; writes through it land in that entry.
    pub fn get_mut(&mut self, name: &str) -> (found: Option<&mut CameraEffectLayer<V, S>>)
        ensures
            match position_of(old(self).layers@, name@) {
                Some(i) => found matches Some(layer) && *layer == old(self).layers@[i].layer
                    && final(self).layers@ == old(self).layers@.update(
                    i,
                    NamedEffectLayer { name: old(self).layers@[i].name, layer: *final(layer) },
                ),
                None => found is None && final(self).layers@ == old(self).layers@,
            },
    {
        let key = name.to_owned();
        match self.find_position(&key) {
            Some(i) => {
                proof {
                    lemma_first_match_unique(self.layers@, name@, i as int);
                }
                Some(&mut self.layers[i].layer)
            },
            None => {
                proof {
                    lemma_no_match_no_position(self.layers@, name@);
                }
                None
            },
        }
    }

    /// Number of enabled layers.
    pub fn active_count(&self) -> (count: usize)
        ensures
            count == count_enabled(self.layers@),
    {
        let mut count: usize = 0;
        let mut k: usize = 0;
        while k < self.layers.len()
            invariant
                k <= self.layers@.len(),
                count <= k,
                count == count_enabled(self.layers@.take(k as int)),
            decreases self.layers@.len() - k,
        {
            assert(self.layers@.take(k + 1).drop_last() =~= self.layers@.take(k as int));
            if self.layers[k].layer.enabled {
                count = count + 1;
            }
            k = k + 1;
        }
        assert(self.layers@.take(k as int) =~= self.layers@);
        count
    }
}

impl<V, S> Default for ThirdPersonCameraCustomEffects<V, S> {
    fn default() -> (effects: Self)
        ensures
            effects.layers@ == Seq::<NamedEffectLayer<V, S>>::empty(),
    {
        ThirdPersonCameraCustomEffects { layers: Vec::new() }
    }
}

} // verus!
