[package]
name = "gpuburden"
version = "0.1.0"
edition = "2021"
publish = false

[dependencies]
rand = "=0.10.3"
serde = { version = "=1.0.229", features = ["derive"] }
config = { version = "=0.15.27", default-features = false, features = ["toml"] }
wgpu = { version = "=30.0.1", default-features = false, features = ["wgsl"] }
smithay-client-toolkit = { version = "=0.21.1", default-features = false }
wayland-client = { version = "=0.31.15", features = ["system", "dlopen"] }
pollster = "=1.0.1"
