[package]
name = "tri_session"
version = "0.1.0"
edition = "2021"
publish = false

[dependencies]
wgpu = "*"
winit = "*"
bytemuck = { version = "*", features = ["derive"] }
log = "*"
env_logger = "*"
