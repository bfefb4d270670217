[package]
name = "opspad"
version = "0.1.0"
edition = "2021"
publish = false

[dependencies]
base64 = "0.22"
keyring = "3"
portable-pty = "0.8"
rusqlite = { version = "0.31", features = ["bundled"] }
serde = { version = "1", features = ["derive"] }
uuid = { version = "1", features = ["v4"] }
which = "6"
