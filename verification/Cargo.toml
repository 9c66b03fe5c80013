[package]
name = "battery_notifier"
version = "0.1.0"
edition = "2021"
publish = false

[dependencies]
anstyle = "1"
chrono = "0.4"
clap = { version = "4", features = ["derive"] }
env_logger = "*"
linuxver = "*"
log = "0.4"
notify-rust = "4"
os_info = "3"
serde = { version = "1", features = ["derive"] }
serde_yaml = "0.9"
soloud = "1"
toml = "*"
