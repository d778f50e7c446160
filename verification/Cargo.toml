[package]
name = "saddle-camera-third-person-camera"
version = "0.1.0"
edition = "2021"
publish = false

[dependencies]
bevy = { version = "=0.18.1", default-features = false, features = ["std", "bevy_camera", "bevy_gizmos", "bevy_window", "bevy_color", "bevy_state", "bevy_log"] }
bevy_enhanced_input = "=0.25.0"
