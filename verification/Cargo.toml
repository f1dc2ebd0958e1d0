[package]
name = "probe_rs_ui"
version = "0.9.0"
edition = "2021"
publish = false

[dependencies]
probe-rs = "=0.32.0"
jep106 = "=0.3.0"
serde = { version = "=1.0.229", features = ["derive"] }
toml = "=0.8.23"
eframe = { version = "=0.31.1", default-features = false, features = ["glow", "default_fonts", "x11"] }
