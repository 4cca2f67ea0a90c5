[package]
name = "rustybeer_util"
version = "0.1.0"
edition = "2021"
publish = false

[dependencies]
measurements = "*"
clap = "*"
serde = { version = "*", features = ["derive"] }
serde_json = "*"
once_cell = "*"
