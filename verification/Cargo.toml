[package]
name = "terrain_scene"
version = "0.1.0"
edition = "2021"
publish = false

[dependencies]
noise = "*"
glam = "*"
glow = "*"
glutin = "*"
glutin-winit = "*"
winit = "*"
raw-window-handle = "*"
image = "*"
tobj = "*"
log = "*"
