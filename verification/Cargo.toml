[package]
name = "learn_opengl"
version = "0.1.0"
edition = "2021"
publish = false

[dependencies]
cgmath = "0.18"
clap = { version = "4", features = ["derive"] }
gl = "0.14"
glfw = "0.51"
image = "0.24"
