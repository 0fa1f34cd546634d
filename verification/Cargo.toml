[package]
name = "veln"
version = "0.1.0"
edition = "2021"
publish = false

[dependencies]
chrono = "0.4"
clap = { version = "4", features = ["derive"] }
hex = "0.4"
is-root = "0.1"
miette = "7"
rand = "0.8"
rouille = "3"
serde = { version = "1", features = ["derive"] }
serde_json = "1"
thiserror = "1"
toml = "0.8"
