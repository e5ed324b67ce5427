[package]
name = "curve_editor_sample"
version = "0.1.0"
edition = "2021"
publish = false

[dependencies]
bytemuck = { version = "=1.25.2", features = ["derive"] }
egui = "0.33"
egui-wgpu = "0.33"
egui-winit = { version = "0.33", default-features = false, features = ["x11", "wayland"] }
env_logger = "=0.11.11"
log = "=0.4.35"
pollster = "=0.4.0"
wgpu = "27"
winit = "=0.30.13"
