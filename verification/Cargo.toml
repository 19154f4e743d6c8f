[package]
name = "shader_pipeline"
version = "0.1.0"
edition = "2021"
publish = false

[dependencies]
gl = "0.14.0"
mat4 = "0.2.1"
