[package]
name = "holochain"
version = "0.1.0"
edition = "2021"
publish = false

[dependencies]
holochain_serialized_bytes = "*"
rand = "0.9"
serde = { version = "1", features = ["derive"] }
sqlx = { version = "0.8", default-features = false, features = ["sqlite", "runtime-tokio"] }
tracing = "0.1"
