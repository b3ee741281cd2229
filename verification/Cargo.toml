[package]
name = "gui_shell"
version = "0.1.0"
edition = "2021"
publish = false

[dependencies]
winit = "*"
glutin = "*"
glutin-winit = "*"
raw-window-handle = "*"
gl = "*"
skia-safe = { version = "*", features = ["gl"] }
