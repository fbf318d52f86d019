[package]
name = "tailor"
version = "0.1.0"
edition = "2021"
publish = false

[dependencies]
futures-lite = "1"
serde = { version = "1", features = ["derive"] }
serde_json = "1"
tokio = { version = "1", default-features = false, features = ["sync", "time"] }
tracing = "0.1"
zbus = { version = "3", default-features = false, features = ["tokio"] }
