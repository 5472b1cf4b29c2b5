[package]
name = "waywin"
version = "0.1.0"
edition = "2021"
publish = false

[dependencies]
smithay-client-toolkit = { version = "*", default-features = false }
wayland-client = "*"
wayland-protocols = { version = "*", features = ["client"] }
raw-window-handle = "*"
