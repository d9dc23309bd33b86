[package]
name = "authgate"
version = "0.1.0"
edition = "2021"
publish = false

[dependencies]
jsonwebtoken = "9"
serde_json = "1"
serde = { version = "1", features = ["derive"] }
warp = "0.3"
tokio = { version = "1", features = ["macros", "rt-multi-thread"] }
chrono = "0.4"
