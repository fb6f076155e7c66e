[package]
name = "pressure"
version = "0.1.0"
edition = "2021"
publish = false

[dependencies]
base64 = "0.22"
nix = { version = "0.30", features = ["fs", "poll"] }
thiserror = "2"
tokio = { version = "1", features = ["net"] }
