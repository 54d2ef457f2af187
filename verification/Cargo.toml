[package]
name = "clunker"
version = "0.1.0"
edition = "2021"
publish = false

[dependencies]
gltf = "1"
winit = "0.28"
rodio = { version = "0.17", default-features = false, features = ["vorbis"] }
