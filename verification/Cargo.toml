[package]
name = "webcam_proxy"
version = "0.1.0"
edition = "2021"
publish = false

[dependencies]
bitflags = "2"
nix = { version = "*", features = ["poll"] }
udev = "*"
v4l2r = "*"
