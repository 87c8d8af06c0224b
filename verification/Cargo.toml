[package]
name = "af"
version = "0.1.0"
edition = "2021"
publish = false

[dependencies]
gl = "=0.14.0"
glfw = { version = "0.55", default-features = false }
libc = "=0.2.191"
