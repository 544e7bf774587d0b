[package]
name = "super_tux_showdown"
version = "0.1.0"
edition = "2021"
publish = false

[dependencies]
bevy = { version = "=0.18.1", default-features = false, features = ["std", "bevy_asset"] }
bevy_math = "=0.18.1"
bevy_reflect = "=0.18.1"
crossbeam-channel = "=0.5.17"
serde = { version = "=1.0.229", features = ["derive"] }
serde_json = "=1.0.154"
serde_with = { version = "=3.24.0", features = ["base64"] }
thiserror = "=2.0.21"
