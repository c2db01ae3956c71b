[package]
name = "gosonnx"
version = "0.1.0"
edition = "2021"
publish = false

[dependencies]
tera = "=1.20.1"
wgpu = { version = "=0.19.4", features = ["glsl"] }
naga = "=0.19.2"
pollster = "=0.3.0"
protobuf = "2"
futures-intrusive = "=0.5.0"
