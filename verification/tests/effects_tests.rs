use saddle_camera_third_person_camera::{CameraEffectLayer, ThirdPersonCameraCustomEffects};

type Layer = CameraEffectLayer<[f32; 3], f32>;

fn layer(x: f32, weight: f32) -> Layer {
    CameraEffectLayer::weighted([x, 0.0, 0.0], [0.0, 0.0, 0.0], 0.0, weight)
}

#[test]
fn weighted_layers_start_enabled() {
    let l = CameraEffectLayer::weighted([1.0, 2.0, 3.0], [0.1, 0.2, 0.3], 0.05, 0.5);
    assert!(l.enabled);
    assert_eq!(l.translation, [1.0, 2.0, 3.0]);
    assert_eq!(l.rotation, [0.1, 0.2, 0.3]);
    assert_eq!(l.fov_delta, 0.05);
    assert_eq!(l.weight, 0.5);
}

#[test]
fn set_appends_then_replaces_in_place() {
    let mut effects: ThirdPersonCameraCustomEffects<[f32; 3], f32> = Default::default();
    assert!(effects.layers.is_empty());
    effects.set("breathing".to_string(), layer(1.0, 1.0));
    effects.set("flinch".to_string(), layer(2.0, 1.0));
    assert_eq!(effects.layers.len(), 2);
    effects.set("breathing".to_string(), layer(3.0, 0.5));
    assert_eq!(effects.layers.len(), 2);
    assert_eq!(effects.layers[0].name, "breathing");
    assert_eq!(effects.layers[0].layer.translation[0], 3.0);
    assert_eq!(effects.get("breathing").unwrap().weight, 0.5);
    assert_eq!(effects.get("flinch").unwrap().translation[0], 2.0);
    assert!(effects.get("missing").is_none());
}

#[test]
fn remove_returns_layer_and_swaps_last_in() {
    let mut effects: ThirdPersonCameraCustomEffects<[f32; 3], f32> = Default::default();
    effects.set("a".to_string(), layer(1.0, 1.0));
    effects.set("b".to_string(), layer(2.0, 1.0));
    effects.set("c".to_string(), layer(3.0, 1.0));
    let removed = effects.remove("a").unwrap();
    assert_eq!(removed.translation[0], 1.0);
    assert_eq!(effects.layers.len(), 2);
    assert_eq!(effects.layers[0].name, "c");
    assert_eq!(effects.layers[1].name, "b");
    assert!(effects.get("a").is_none());
    assert!(effects.remove("a").is_none());
    assert_eq!(effects.layers.len(), 2);
}

#[test]
fn get_mut_writes_into_the_entry() {
    let mut effects: ThirdPersonCameraCustomEffects<[f32; 3], f32> = Default::default();
    effects.set("shake".to_string(), layer(1.0, 1.0));
    {
        let entry = effects.get_mut("shake").unwrap();
        entry.weight = 0.25;
        entry.enabled = false;
    }
    assert_eq!(effects.get("shake").unwrap().weight, 0.25);
    assert!(!effects.get("shake").unwrap().enabled);
    assert!(effects.get_mut("other").is_none());
}

#[test]
fn active_count_counts_enabled_layers() {
    let mut effects: ThirdPersonCameraCustomEffects<[f32; 3], f32> = Default::default();
    assert_eq!(effects.active_count(), 0);
    effects.set("a".to_string(), layer(1.0, 1.0));
    effects.set("b".to_string(), layer(2.0, 1.0));
    let mut disabled = layer(3.0, 1.0);
    disabled.enabled = false;
    effects.set("c".to_string(), disabled);
    assert_eq!(effects.active_count(), 2);
    effects.get_mut("a").unwrap().enabled = false;
    assert_eq!(effects.active_count(), 1);
}

#[test]
fn duplicate_names_resolve_to_first_entry() {
    let mut effects: ThirdPersonCameraCustomEffects<[f32; 3], f32> = Default::default();
    effects.layers.push(saddle_camera_third_person_camera::NamedEffectLayer {
        name: "dup".to_string(),
        layer: layer(1.0, 1.0),
    });
    effects.layers.push(saddle_camera_third_person_camera::NamedEffectLayer {
        name: "dup".to_string(),
        layer: layer(2.0, 1.0),
    });
    assert_eq!(effects.get("dup").unwrap().translation[0], 1.0);
    effects.set("dup".to_string(), layer(5.0, 1.0));
    assert_eq!(effects.layers[0].layer.translation[0], 5.0);
    assert_eq!(effects.layers[1].layer.translation[0], 2.0);
    let removed = effects.remove("dup").unwrap();
    assert_eq!(removed.translation[0], 5.0);
    assert_eq!(effects.get("dup").unwrap().translation[0], 2.0);
}
