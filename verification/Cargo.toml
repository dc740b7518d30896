[package]
name = "dynamic_wallpaper"
version = "0.1.0"
edition = "2021"
publish = false

[dependencies]
smithay-client-toolkit = { version = "*", default-features = false }
wayland-client = "*"
