[package]
name = "oanda_rs"
version = "0.1.0"
edition = "2021"
publish = false

[dependencies]
serde = { version = "1", features = ["derive"] }
serde_json = "1"
reqwest = { version = "0.12", default-features = false, features = ["json"] }
tokio = { version = "1", features = ["rt-multi-thread", "time", "macros"] }
tower = { version = "0.4", features = ["buffer", "limit", "retry", "util"] }
futures = "0.3"
futures-util = "0.3"
thiserror = "1"
