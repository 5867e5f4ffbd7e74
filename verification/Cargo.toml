[package]
name = "player"
version = "0.1.0"
edition = "2021"
publish = false

[dependencies]
wgpu-core = { version = "=0.16.1", features = ["replay", "trace", "wgsl", "vulkan"] }
wgpu-types = { version = "=0.16.1", features = ["replay", "trace"] }
log = "=0.4.35"
ron = "=0.8.1"
