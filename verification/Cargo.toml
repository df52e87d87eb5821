[package]
name = "zenbook-duo-daemon"
version = "0.1.0"
edition = "2021"
publish = false

[dependencies]
clap = { version = "4", features = ["derive"] }
env_logger = "0.11"
evdev-rs = { version = "0.6", features = ["serde"] }
futures = "0.3"
inotify = "0.11"
log = "0.4"
nix = { version = "0.30", features = ["fs", "user"] }
nusb = { version = "0.2", features = ["tokio"] }
serde = { version = "1", features = ["derive"] }
serde_json = "1"
tokio = { version = "1", features = ["full"] }
toml = "0.9"
zbus = { version = "5", default-features = false, features = ["tokio"] }
