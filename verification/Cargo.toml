[package]
name = "scaffolder"
version = "0.1.0"
edition = "2021"
publish = false

[dependencies]
convert_case = "*"
serde = { version = "1", features = ["derive"] }
toml = "*"
