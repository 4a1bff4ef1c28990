[package]
name = "rendering_project"
version = "0.1.0"
edition = "2021"
publish = false

[dependencies]
ash = "=0.38.0"
glfw = { version = "=0.63.0", default-features = false, features = ["vulkan"] }

[dev-dependencies]
ash = "=0.38.0"
