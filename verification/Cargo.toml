[package]
name = "render_core"
version = "0.1.0"
edition = "2021"
publish = false

[dependencies]
wgpu = { version = "0.20", default-features = false, features = ["wgsl"] }
winit = { version = "0.30", default-features = false, features = ["x11", "rwh_06"] }
image = { version = "0.25", default-features = false, features = ["png", "jpeg"] }
tobj = "4"
serde-hjson = "0.9"
async-std = "1"
glam = "0.27"
bytemuck = { version = "1", features = ["derive"] }
anyhow = "1"
log = "0.4"
env_logger = { version = "0.11", default-features = false }
intel_tex_2 = "*"
