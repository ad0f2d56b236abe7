[package]
name = "ghostty"
version = "0.1.0"
edition = "2021"
publish = false

[dependencies]
libc = "0.2"
nix = { version = "0.30", features = ["fs", "term", "process", "signal", "user", "ioctl"] }
raylib = "5.5"
