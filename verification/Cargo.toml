[package]
name = "unictrl"
version = "0.1.0"
edition = "2021"
publish = false

[dependencies]
dotenv = "0.15"
reqwest = { version = "0.11", features = ["blocking", "json", "cookies"] }
serde = { version = "1", features = ["derive"] }

[dev-dependencies]
serde_json = "1"
