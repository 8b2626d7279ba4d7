[package]
name = "stl_renderer"
version = "0.1.0"
edition = "2021"
publish = false

[dependencies]
stl = "0.2.1"
glam = "0.32.1"
bytemuck = { version = "1.25.0", features = ["derive"] }
pollster = "0.4.0"
wgpu = "28.0.0"
winit = "0.30.13"
