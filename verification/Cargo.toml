[package]
name = "libinput-rs"
version = "0.3.1"
edition = "2021"
publish = false

[dependencies]
env_logger = "0.11"
evdev = "0.13"
libc = "0.2"
log = "0.4"
nix = { version = "0.29", features = ["event", "fs", "inotify", "poll"] }
serde = { version = "1", features = ["derive"] }
serde_json = "1"
