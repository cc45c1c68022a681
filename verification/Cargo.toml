[package]
name = "voiceinput"
version = "0.1.0"
edition = "2021"
publish = false

[dependencies]
serde = { version = "1", features = ["derive"] }
toml = "0.8"
dirs = "5"
log = "0.4"
env_logger = "0.11"
parking_lot = "0.12"
ureq = "2"
evdev = "0.12"
