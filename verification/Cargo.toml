[package]
name = "spectrum-native"
version = "0.1.0"
edition = "2021"
publish = false

[dependencies]
ab_glyph = "=0.2.32"
anyhow = "=1.0.104"
bytemuck = { version = "=1.25.2", features = ["derive"] }
gstreamer = "=0.25.4"
gstreamer-app = "=0.25.2"
gstreamer-video = "=0.25.4"
# gstreamer needs it; later releases ask for a newer compiler.
kstring = "=2.0.2"
pollster = "=1.0.1"
raw-window-handle = "=0.6.2"
rustfft = "=6.4.1"
smithay-client-toolkit = { version = "=0.21.1", default-features = false }
url = "=2.5.8"
wayland-client = { version = "=0.31.15", features = ["system"] }
wgpu = "=30.0.1"
winit = "=0.30.13"
