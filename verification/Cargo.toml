[package]
name = "obs_hotkeys"
version = "0.1.0"
edition = "2021"
publish = false

[dependencies]
global-hotkey = "*"
obws = "*"
tokio = { version = "*", features = ["rt-multi-thread", "fs", "sync"] }
winit = "*"
clap = { version = "*", features = ["derive"] }
env_logger = "*"
log = "*"
anyhow = "*"
serde = { version = "*", features = ["derive"] }
toml = "*"
secrecy = "*"
