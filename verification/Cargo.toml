[package]
name = "pixel2d"
version = "0.1.0"
edition = "2021"
publish = false

[dependencies]
gl = "0.14"
glutin = "0.29"
nalgebra-glm = "*"
image = "*"
