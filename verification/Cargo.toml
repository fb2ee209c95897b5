[package]
name = "wheel"
version = "0.1.0"
edition = "2021"
publish = false

[dependencies]
bevy = { version = "=0.16.1", default-features = false, features = ["std", "bevy_asset", "bevy_state", "bevy_render", "bevy_sprite", "bevy_core_pipeline", "png"] }
rand = "=0.9.5"
