[package]
name = "micetimer"
version = "0.1.0"
edition = "2021"
publish = false

[dependencies]
anyhow = "1"
clap = { version = "4", features = ["derive"] }
humantime = "2"
log = "0.4"
nix = { version = "0.27", features = ["event", "time"] }
simplelog = "0.12"
toml = "0.8"
