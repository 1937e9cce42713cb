[package]
name = "device_health"
version = "0.1.0"
edition = "2021"
publish = false

[dependencies]
nix = { version = "0.27", default-features = false }
once_cell = "1"
serde_json = "1"
