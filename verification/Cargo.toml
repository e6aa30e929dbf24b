[package]
name = "vulkan_video"
version = "0.1.0"
edition = "2021"
publish = false

[dependencies]
ash = "=0.38.0"

[dev-dependencies]
h264-reader = "=0.8.0"
