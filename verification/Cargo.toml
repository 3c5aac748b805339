[package]
name = "image_processor"
version = "0.1.0"
edition = "2021"
publish = false

[dependencies]
base64 = "*"
image = "*"
log = "*"
serde = { version = "*", features = ["derive"] }
