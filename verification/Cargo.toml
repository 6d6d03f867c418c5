[package]
name = "gl_samples"
version = "0.1.0"
edition = "2021"
publish = false

[dependencies]
gl = "0.14"
glutin = "0.31"
glutin-winit = "0.4"
image = { version = "0.24", default-features = false, features = ["jpeg", "png"] }
nalgebra = "0.32"
raw-window-handle = "0.5"
winit = "0.29"
