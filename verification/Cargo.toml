[package]
name = "batch_dispatch"
version = "0.1.0"
edition = "2021"
publish = false

[dependencies]
serde = { version = "*", features = ["derive"] }
toml = "*"
tower = "*"
futures = "*"
