[package]
name = "evmon"
version = "0.1.0"
edition = "2021"
publish = false

[dependencies]
evdev-rs = "0.3.1"
nix = "=0.17.0"
