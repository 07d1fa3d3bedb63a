[package]
name = "vkdemo"
version = "0.1.0"
edition = "2021"
publish = false

[dependencies]
ash = "=0.38.0"
ash-window = "=0.13.0"
bytemuck = { version = "=1.25.2", features = ["derive"] }
glam = "=0.31.1"
gltf = "=1.4.1"
imgui = "=0.12.0"
imgui-rs-vulkan-renderer = { version = "=1.16.0", features = ["dynamic-rendering"] }
imgui-winit-support = "=0.13.0"
vk-mem = "=0.5.0"
winit = "=0.30.13"
