[package]
name = "cfr_arena"
version = "0.1.0"
edition = "2021"
publish = false

[dependencies]
little-sorry = "*"
serde = { version = "*", features = ["derive"] }
serde_json = "*"
anyhow = "*"
