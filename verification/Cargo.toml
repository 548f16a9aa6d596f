[package]
name = "armul"
version = "0.1.0"
edition = "2021"
publish = false

[dependencies]
anyhow = "1"
clap = { version = "4", features = ["derive"] }
parking_lot = "0.12"
serde = { version = "1", features = ["derive"] }
serde_repr = "0.1"
