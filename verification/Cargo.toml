[package]
name = "scene_viewer"
version = "0.1.0"
edition = "2021"
publish = false

[dependencies]
bytemuck = "*"
futures = "*"
glam = "*"
gltf = "*"
nalgebra-glm = "*"
shaderc = "*"
wgpu = { version = "*", features = ["spirv"] }
winit = "*"
