[package]
name = "polokol"
version = "0.1.0"
edition = "2021"
publish = false

[dependencies]
bounded-collections = "0.3.2"
frame-support = "*"
frame-system = "*"
parity-scale-codec = { version = "3.7.5", features = ["derive"] }
scale-info = { version = "2.11.6", features = ["derive"] }
