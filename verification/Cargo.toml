[package]
name = "wave_engine"
version = "0.1.0"
edition = "2021"
publish = false

[dependencies]
rand = "0.8"
gl = "0.14"
chrono = "0.4"
stb_image = "0.3"
