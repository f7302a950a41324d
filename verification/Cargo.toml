[package]
name = "sim_viewer"
version = "0.1.0"
edition = "2021"
publish = false

[dependencies]
sdl2 = "=0.38.0"
serde = { version = "1", features = ["derive"] }
serde_json = "1"
