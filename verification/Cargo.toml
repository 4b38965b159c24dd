[package]
name = "gfx_triangle"
version = "0.1.0"
edition = "2021"
publish = false

[dependencies]
gfx = "*"
gfx_device_gl = "*"
glfw = "*"
