[package]
name = "transcoder"
version = "0.1.0"
edition = "2021"
publish = false

[dependencies]
reqwest = { version = "0.11", default-features = false, features = ["blocking", "json"] }
rocket = { version = "0.5" }
serde = { version = "1", features = ["derive"] }
