[package]
name = "mode_toggle"
version = "0.1.0"
edition = "2021"
publish = false

[dependencies]
log = "0.4"
reqwest = { version = "0.12", default-features = false }
serde_json = "1"
