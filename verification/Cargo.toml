[package]
name = "sugarloaf"
version = "0.1.0"
edition = "2021"
publish = false

[dependencies]
font-kit = "0.11"
glyph_brush = "0.7"
log = "0.4"
wgpu = "0.13"
wgpu_glyph = "0.17"
winit = { version = "0.27", default-features = false, features = ["x11"] }
