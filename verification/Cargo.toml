[package]
name = "waddlie_core"
version = "0.1.0"
edition = "2021"
publish = false

[dependencies]
bevy = { version = "=0.18.1", default-features = false, features = ["std", "bevy_log", "bevy_window", "bevy_pbr", "bevy_gltf", "bevy_gizmos", "bevy_scene", "bevy_animation", "gltf_animation", "bevy_state"] }
serde = { version = "=1.0.229", features = ["derive"] }
serde_json = "=1.0.154"
wasm-bindgen = "=0.2.130"
web-sys = { version = "=0.3.107", features = ["Window", "Storage"] }
