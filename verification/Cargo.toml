[package]
name = "tiny-llama-cuda"
version = "0.1.0"
edition = "2021"
publish = false

[dependencies]
burn = { version = "=0.18.0", default-features = false, features = ["std"] }
clap = { version = "4", features = ["derive"] }
dirs = "6"
