[package]
name = "zeroos"
version = "0.1.0"
edition = "2021"
publish = false

[dependencies]
parse-size = "*"
clap = { version = "*", features = ["derive"] }
dirs = "*"
serde_json = "*"
tempfile = "*"
