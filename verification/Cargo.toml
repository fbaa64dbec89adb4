[package]
name = "scene2d"
version = "0.1.0"
edition = "2021"
publish = false

[dependencies]
wgpu = "0.17"
winit = "0.28"
image = { version = "0.24", default-features = false, features = ["png", "jpeg"] }
bytemuck = { version = "1", features = ["derive"] }
pollster = "0.3"
env_logger = "0.10"
async-trait = "0.1"
