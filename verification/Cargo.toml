[package]
name = "render_core"
version = "0.1.0"
edition = "2021"
publish = false

[dependencies]
gl = "=0.14.0"
glutin = "=0.26.0"
nalgebra = "=0.24.1"
nalgebra-glm = "=0.10.0"
stl = "=0.2.1"
