[package]
name = "cindy"
version = "0.1.0"
edition = "2021"
publish = false

[dependencies]
chrono = "0.4"
dotenv = "0.15"
futures = "0.3"
tokio = { version = "1", features = ["sync", "time"] }
