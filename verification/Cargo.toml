[package]
name = "boundless_server_core"
version = "0.1.0"
edition = "2021"
publish = false

[dependencies]
base64 = "0.22"
rand_core = "0.6"
serde = { version = "1", features = ["derive"] }
serde_json = "1"
uuid = "1"
zeroize = "1"

[dev-dependencies]
rand_chacha = "0.3"
