[package]
name = "moon"
version = "0.1.0"
edition = "2021"
publish = false

[dependencies]
gl = "0.14"
glfw = { version = "0.41", default-features = false }
png = "0.16"
