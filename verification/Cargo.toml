[package]
name = "shader_preview"
version = "0.1.0"
edition = "2021"
publish = false

[dependencies]
anyhow = "1"
gl = "0.14"
image = "0.24"
msgbox = "0.7"
notify = "4"
raw-gl-context = "0.1"
winit = "0.25"
