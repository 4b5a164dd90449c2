[package]
name = "possum"
version = "0.1.0"
edition = "2021"
publish = false

[dependencies]
yaml-peg = "*"
clap = { version = "*", features = ["derive"] }
