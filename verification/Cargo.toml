[package]
name = "egui-wlr-layer"
version = "0.1.0"
edition = "2021"
publish = false

[dependencies]
egui = "0.31"
egui-wgpu = "0.31"
wgpu = "24"
smithay-client-toolkit = "0.19"
wayland-client = "0.31"
wayland-backend = { version = "0.3", features = ["client_system", "dlopen"] }
pollster = "0.4"
