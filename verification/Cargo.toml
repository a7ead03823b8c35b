[package]
name = "beatcore"
version = "0.1.0"
edition = "2021"
publish = false

[dependencies]
cpal = "*"
rustfft = "*"
serde = { version = "*", features = ["derive"] }
serde_json = "*"
