[package]
name = "glrender"
version = "0.1.0"
edition = "2021"
publish = false

[dependencies]
glam = { version = "*", features = ["bytemuck"] }
bytemuck = "*"
gl = "*"
glfw = "*"
image = "*"
tobj = "*"
