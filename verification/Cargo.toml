[package]
name = "nes_core"
version = "0.1.0"
edition = "2021"
publish = false

[dependencies]
glfw = { version = "=0.51.0", default-features = false }
