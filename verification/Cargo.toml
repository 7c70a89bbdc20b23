[package]
name = "surreal_pool"
version = "0.1.0"
edition = "2021"
publish = false

[dependencies]
tokio = { version = "*", features = ["sync", "rt", "rt-multi-thread", "macros"] }
arc-swap = "*"
once_cell = "*"
serde = { version = "*", features = ["derive"] }
serde_json = "*"
