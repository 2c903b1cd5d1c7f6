[package]
name = "workshop_bridge"
version = "0.1.0"
edition = "2021"
publish = false

[dependencies]
dunce = "*"
serde = { version = "*", features = ["derive"] }
serde_json = "*"
steamworks = "*"
