[package]
name = "renderer_backend"
version = "0.1.0"
edition = "2021"
publish = false

[dependencies]
image = "0.25"
wgpu = "25"
winit = "0.30"
futures = "0.3"
glm = "0.2"
