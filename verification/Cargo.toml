[package]
name = "slmap"
version = "0.2.0"
edition = "2021"
publish = false

[dependencies]
shellexpand = "3"
clap = "4"
colored = "2"
serde = { version = "1", features = ["derive"] }
toml = "0.8"
