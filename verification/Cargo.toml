[package]
name = "phosphlux_lite"
version = "0.1.0"
edition = "2021"
publish = false

[dependencies]
bytemuck = { version = "1", features = ["derive"] }
egui = "0.30"
egui-wgpu = "0.30"
egui-winit = "0.30"
env_logger = "0.11"
image = { version = "0.25", default-features = false, features = ["png"] }
instant = "0.1"
pollster = "0.3"
serde = { version = "1", features = ["derive"] }
serde_json = "1"
wgpu = "23"
winit = "0.30"
