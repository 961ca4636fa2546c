[package]
name = "bnuuy"
version = "0.1.0"
edition = "2021"
publish = false

[dependencies]
vte = "=0.15.0"
lru = "=0.12.5"
log = "=0.4.34"
env_logger = { version = "=0.11.11", default-features = false }
serde = { version = "=1.0.229", features = ["derive"] }
config = { version = "=0.14.1", default-features = false, features = ["toml"] }
directories = "=5.0.1"
crossbeam-channel = "=0.5.17"
portable-pty = "0.8"
arboard = { version = "=3.7.0", default-features = false }
opener = "=0.7.2"
pollster = "=0.3.0"
bytemuck = { version = "=1.25.2", features = ["derive"] }
winit = { version = "=0.30.13", default-features = false, features = ["x11", "rwh_06"] }
wgpu = { version = "=25.0.2", default-features = false, features = ["wgsl"] }
glyphon = "=0.9.0"
cosmic-text = "=0.14.2"
