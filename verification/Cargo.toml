[package]
name = "pier"
version = "0.1.0"
edition = "2021"
publish = false

[dependencies]
clap = "2"
prettytable-rs = "0.10"
serde = { version = "1", features = ["derive"] }
toml = "0.5"
