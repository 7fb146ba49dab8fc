[package]
name = "client_gateway"
version = "0.1.0"
edition = "2021"
publish = false

[dependencies]
dotenv = "*"
reqwest = { version = "*", default-features = false, features = ["json", "multipart"] }
serde = { version = "*", features = ["derive"] }
serde_json = "*"
tokio = { version = "*", features = ["fs", "io-util", "rt-multi-thread", "macros"] }
