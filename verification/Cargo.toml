[package]
name = "overlay_control"
version = "0.1.0"
edition = "2021"
publish = false

[dependencies]
keyboard-types = { version = "0.7", default-features = false }
sysinfo = { version = "0.30", default-features = false }
