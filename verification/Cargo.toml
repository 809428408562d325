[package]
name = "sensehat_screen"
version = "0.3.0"
edition = "2021"
publish = false

[dependencies]
font8x8 = "*"
framebuffer = "*"
serde = { version = "1", features = ["derive"] }
