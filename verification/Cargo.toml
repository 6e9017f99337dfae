[package]
name = "tv_power"
version = "0.1.0"
edition = "2021"
publish = false

[dependencies]
clap = { version = "=4.6.7", features = ["derive", "env"] }
color-eyre = "=0.6.5"
crossbeam = "=0.8.5"
dbus = { version = "=0.9.12", features = ["vendored"] }
dotenvy = "=0.15.7"
env_logger = "=0.11.11"
libsystemd = "=0.7.2"
log = "=0.4.34"
mac_address = "=1.2.1"
nix = { version = "=0.31.3", features = ["signal"] }
owo-colors = { version = "=4.4.0", features = ["supports-colors"] }
systemd-journal-logger = "=2.2.2"
wol-rs = "*"
