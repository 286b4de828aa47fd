[package]
name = "vertex_layout"
version = "0.1.0"
edition = "2021"
publish = false

[dependencies]
glam = "*"
wgpu = { version = "*", default-features = false }
