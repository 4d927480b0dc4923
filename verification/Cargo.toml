[package]
name = "blazing_fast_engine"
version = "0.1.0"
edition = "2021"
publish = false

[dependencies]
winit = "0.30"
vulkano = "0.35"
vulkano-shaders = "0.35"
glam = "0.30"
image = { version = "0.25", default-features = false, features = ["png"] }
noise = "0.9"
rand = "0.9"
bincode = "1"
serde = { version = "1", features = ["derive"] }
typetag = "0.2"
