[package]
name = "vtuber_core"
version = "0.1.0"
edition = "2021"
publish = false

[dependencies]
image = "*"
ndarray = "*"
tract-core = "*"
tract-onnx = "*"
v4l = "*"
