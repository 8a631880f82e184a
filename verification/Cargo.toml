[package]
name = "vast_enum"
version = "0.1.0"
edition = "2021"
publish = false

[dependencies]
derivative = "2"
serde = { version = "1", features = ["derive"] }

[dev-dependencies]
serde_json = "1"
