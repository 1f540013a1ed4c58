[package]
name = "razer_control"
version = "0.1.0"
edition = "2021"
publish = false

[dependencies]
bincode = "=1.3.3"
dbus = { version = "=0.9.12", features = ["vendored"] }
env_logger = "=0.10.2"
log = "=0.4.34"
serde = { version = "=1.0.229", features = ["derive"] }
signal-hook = "=0.3.18"
