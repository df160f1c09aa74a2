[package]
name = "tutorial_container"
version = "0.1.0"
edition = "2021"
publish = false

[dependencies]
ico = "=0.4.0"
image = "=0.25.10"
log = "=0.4.34"
serde = { version = "=1.0.229", features = ["derive"] }
serde_json = "=1.0.154"
