[package]
name = "clipstash"
version = "0.1.0"
edition = "2021"
publish = false

[dependencies]
uuid = { version = "*", features = ["v4"] }
chrono = "*"
sqlx = { version = "*", default-features = false, features = ["runtime-tokio", "sqlite"] }
