[package]
name = "physics_bench"
version = "0.1.0"
edition = "2021"
publish = false

[dependencies]
rand = "=0.9.5"
bevy = { version = "0.16", default-features = false, features = ["std", "bevy_state", "bevy_window", "bevy_asset", "bevy_color", "bevy_render", "bevy_core_pipeline", "bevy_pbr", "bevy_sprite"] }
avian2d = { version = "0.3", default-features = false, features = ["2d", "f32", "parry-f32", "default-collider"] }
avian3d = { version = "0.3", default-features = false, features = ["3d", "f32", "parry-f32", "default-collider"] }
bevy_rapier2d = { version = "0.30", default-features = false, features = ["dim2"] }
bevy_rapier3d = { version = "0.30", default-features = false, features = ["dim3"] }
