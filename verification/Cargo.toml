[package]
name = "obs_hotkeys"
version = "0.1.0"
edition = "2021"
publish = false

[dependencies]
anyhow = "1"
argh = "*"
obws = "*"
serde = { version = "1", features = ["derive"] }
serde_yaml = "*"
shellexpand = "*"
tokio = { version = "1", features = ["rt-multi-thread", "macros"] }
