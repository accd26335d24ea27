[package]
name = "auto_logout"
version = "0.1.0"
edition = "2021"
publish = false

[dependencies]
clap = { version = "*", features = ["derive"] }
humantime = "*"
nix = { version = "*", features = ["user"] }
wayland-client = "*"
wayland-protocols = { version = "*", features = ["client", "staging"] }
zbus = "*"
