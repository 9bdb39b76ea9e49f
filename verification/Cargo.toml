[package]
name = "bevy_rafx"
version = "0.1.0"
edition = "2021"
publish = false

[dependencies]
bevy = { version = "0.5", default-features = false }
bevy_render = "0.5"
bevy_pbr = "0.5"
bevy_mod_debugdump = "0.1"
rafx = { version = "*", features = ["framework"] }
bincode = "1"
serde = { version = "1", features = ["derive"] }
type-uuid = "0.1"
