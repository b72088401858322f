[package]
name = "near_promise"
version = "0.1.0"
edition = "2021"
publish = false

[dependencies]
borsh = "0.9"
serde = { version = "1", features = ["derive"] }
