[package]
name = "hanabi"
version = "0.1.0"
edition = "2021"
publish = false

[dependencies]
bevy = { version = "0.13", default-features = false }
ron = "0.8"
serde = { version = "1", features = ["derive"] }
typetag = "0.2"
