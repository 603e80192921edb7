[package]
name = "fractal_explorer"
version = "0.1.0"
edition = "2021"
publish = false

[dependencies]
bytemuck = { version = "=1.25.2", features = ["derive"] }
env_logger = "=0.9.3"
image = { version = "=0.24.9", default-features = false, features = ["png"] }
instant = "=0.1.13"
log = "=0.4.34"
pollster = "=0.2.5"
wgpu = "=0.14.2"
winit = "=0.27.5"
