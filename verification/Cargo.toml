[package]
name = "render_core"
version = "0.1.0"
edition = "2021"
publish = false

[dependencies]
anyhow = "=1.0.104"
glam = "=0.34.1"
image = "=0.25.10"
log = "=0.4.34"
pretty_env_logger = "=0.5.0"
thiserror = "=2.0.21"
vulkanalia = { version = "=0.35.0", features = ["libloading", "window"] }
winit = "=0.29.15"
