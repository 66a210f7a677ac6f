[package]
name = "input_dispatch"
version = "0.1.0"
edition = "2021"
publish = false

[dependencies]
glam = { version = "0.20", features = ["serde"] }
kurbo = { version = "0.8", features = ["serde"] }
log = "0.4"
serde = { version = "1.0", features = ["derive"] }
