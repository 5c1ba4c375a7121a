[package]
name = "reward_coin"
version = "0.1.0"
edition = "2021"
publish = false

[dependencies]
sp-runtime = "*"
sp-std = "*"
frame-support = "*"
frame-system = "*"
parity-scale-codec = { version = "*", features = ["derive"] }
scale-info = { version = "*", features = ["derive"] }
