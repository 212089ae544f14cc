[package]
name = "wlcore"
version = "0.1.0"
edition = "2021"
publish = false

[dependencies]
wayland-client = "0.28"
wayland-protocols = { version = "0.28", features = ["client"] }
wayland-server = "0.28"
calloop = "0.6"
memmap2 = "0.5"
nix = "0.23"
xkb = "*"
xkbcommon-sys = "*"
