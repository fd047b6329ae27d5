[package]
name = "dock"
version = "0.1.0"
edition = "2021"
publish = false

[dependencies]
ansi_term = "0.12"
serde = { version = "1", features = ["derive"] }
toml = "0.8"

[dev-dependencies]
shlex = "1"
