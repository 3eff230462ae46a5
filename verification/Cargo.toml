[package]
name = "usbip_registry"
version = "0.1.0"
edition = "2021"
publish = false

[dependencies]
regex = "1"
anyhow = "1"
clap = { version = "4", features = ["derive", "env"] }
env_logger = "0.10"
log = "0.4"
xshell = "0.2"
