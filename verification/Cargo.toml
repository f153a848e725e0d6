[package]
name = "place_store"
version = "0.1.0"
edition = "2021"
publish = false

[dependencies]
chrono = "0.4"
scylla = "0.12"
serde = { version = "1", features = ["derive"] }
tokio = { version = "1", features = ["macros", "rt-multi-thread"] }
