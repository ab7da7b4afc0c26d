[package]
name = "flight_query"
version = "0.1.0"
edition = "2021"
publish = false

[dependencies]
uuid = { version = "*", features = ["v4"] }
urlencoding = "*"
serde = { version = "*", features = ["derive"] }
serde_json = "*"
reqwest = { version = "*", default-features = false, features = ["json"] }
tokio = { version = "*", features = ["rt", "rt-multi-thread", "macros", "sync", "time"] }
redis = { version = "*", features = ["tokio-comp"] }
futures = "*"
chrono = { version = "*", default-features = false, features = ["clock"] }
