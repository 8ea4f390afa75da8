[package]
name = "shared_lib"
version = "0.1.0"
edition = "2021"
publish = false

[dependencies]
sha2 = "0.10"
gl = "0.14"
anyhow = "1"
thiserror = "1"
image = { version = "0.24", default-features = false, features = ["png"] }
cgmath = "0.18"
rusttype = "0.9"
sdl2 = "0.36"
float-cmp = "0.9"
lazy_static = "1"
serde = { version = "1", features = ["derive"] }
