[package]
name = "opentok_remote"
version = "0.1.0"
edition = "2021"
publish = false

[dependencies]
url = "2"
ipc-channel = "*"
signal-child = "*"
serde = { version = "1", features = ["derive"] }
