[package]
name = "ansi_colour"
version = "0.1.0"
edition = "2021"
publish = false

[dependencies]
rgb24 = "*"
serde = { version = "*", features = ["derive"] }
