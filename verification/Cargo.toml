[package]
name = "gazelle_api"
version = "0.1.0"
edition = "2021"
publish = false

[dependencies]
serde = { version = "*", features = ["derive"] }
serde_json = "*"
reqwest = { version = "*", default-features = false, features = ["multipart"] }
tokio = { version = "*", features = ["rt", "time"] }
async-trait = "*"
