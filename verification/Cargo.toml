[package]
name = "glyphcache"
version = "0.1.0"
edition = "2021"
publish = false

[dependencies]
freetype-rs = "*"
glutin = "0.28"
gl = "*"
nalgebra-glm = "*"
