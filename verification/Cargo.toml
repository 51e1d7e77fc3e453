[package]
name = "shmup"
version = "0.1.0"
edition = "2021"
publish = false

[dependencies]
rand = "0.8"
wgpu = "0.15"
winit = "0.28"
image = { version = "0.24", default-features = false, features = ["png"] }
bytemuck = { version = "1", features = ["derive"] }
cgmath = "0.18"
pollster = "0.3"
