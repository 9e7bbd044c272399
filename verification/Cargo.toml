[package]
name = "fighting_frame"
version = "0.1.0"
edition = "2021"
publish = false

[dependencies]
glam = "=0.34.0"
gltf = "*"
