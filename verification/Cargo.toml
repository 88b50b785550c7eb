[package]
name = "egui_wgpu_performance"
version = "0.1.0"
edition = "2021"
publish = false

[dependencies]
eframe = { version = "0.31", default-features = false, features = ["wgpu", "x11", "wayland", "default_fonts"] }
egui = "0.31"
wgpu = "24"
