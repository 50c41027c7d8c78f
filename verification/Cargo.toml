[package]
name = "shader_chain"
version = "0.1.0"
edition = "2021"
publish = false

[dependencies]
ash = "=0.38.0"
gl = "=0.14.0"
librashader-common = { version = "=0.12.1", features = ["opengl", "vulkan"] }
librashader-pack = "=0.12.1"
librashader-preprocess = "=0.12.1"
librashader-presets = "=0.12.1"
librashader-reflect = "=0.12.1"
librashader-runtime = "=0.12.1"
rustc-hash = "=2.1.3"
spirv_cross = "=0.23.1"
thiserror = "=2.0.21"
