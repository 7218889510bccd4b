[package]
name = "brother_ql"
version = "0.1.0"
edition = "2021"
publish = false

[dependencies]
image = "*"
exoquant = "*"
clap = { version = "*", features = ["derive"] }
