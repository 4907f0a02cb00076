[package]
name = "channel_geometry"
version = "0.1.0"
edition = "2021"

[dependencies]
geometry-predicates = "*"
serde = { version = "*", features = ["derive"] }
serde_json = "*"
