[package]
name = "rusty_runner"
version = "0.1.0"
edition = "2021"
publish = false

[dependencies]
avian2d = { version = "=0.4.1", default-features = false, features = ["2d", "f32", "parry-f32", "default-collider"] }
bevy = { version = "=0.17.3", default-features = false, features = ["bevy_state", "bevy_asset", "bevy_sprite", "bevy_window", "std"] }
bevy_ecs_tiled = { version = "=0.10.0", default-features = false, features = ["avian"] }
dirs = "=6.0.0"
serde = { version = "=1.0.229", features = ["derive"] }
serde_json = "=1.0.154"
