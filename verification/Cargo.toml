[package]
name = "hello_wgpu"
version = "0.1.0"
edition = "2021"
publish = false

[dependencies]
bytemuck = { version = "*", features = ["derive"] }
cgmath = "*"
env_logger = "*"
image = { version = "*", default-features = false, features = ["png"] }
log = "*"
pollster = "*"
wgpu = "*"
winit = "*"
