[package]
name = "notify_sleep"
version = "0.1.0"
edition = "2021"
publish = false

[dependencies]
eframe = { version = "0.37", default-features = false, features = ["wgpu", "x11"] }
egui = { version = "0.37", default-features = false }
iced = { version = "0.14", default-features = false, features = ["tiny-skia", "tokio"] }
iced_layershell = { version = "0.19", default-features = false }
rodio = { version = "0.23", default-features = false, features = ["playback"] }
wayland-client = "0.31"
x11rb = "0.13"
