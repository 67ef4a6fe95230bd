[package]
name = "config_error"
version = "0.1.0"
edition = "2021"
publish = false

[dependencies]
failure = "=0.1.8"
toml = "=0.4.10"

[dev-dependencies]
serde = "=1.0.229"
