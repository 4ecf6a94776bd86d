[package]
name = "megablast"
version = "0.1.0"
edition = "2021"
publish = false

[dependencies]
glyphon = "*"
rand = "0.9"
wgpu = "*"
winit = "0.30"
