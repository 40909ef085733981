[package]
name = "candyland"
version = "0.1.0"
edition = "2021"
publish = false

[dependencies]
fastrand = "2.3"
bevy = { version = "=0.17.3", default-features = false, features = ["std"] }
libnoise = "1"
ron = "0.11"
serde = { version = "1", features = ["derive"] }
