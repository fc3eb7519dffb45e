[package]
name = "fracture"
version = "0.1.0"
edition = "2021"
publish = false

[dependencies]
rand = "0.8"
glam = { version = "0.29", features = ["serde"] }
serde = { version = "1", features = ["derive"] }
