[package]
name = "mpris_client_async"
version = "0.1.0"
edition = "2021"
publish = false

[dependencies]
zbus = "5"
futures = "0.3"
tokio = { version = "1", features = ["rt", "rt-multi-thread", "macros"] }
async-std = "1"
serde = { version = "1", features = ["derive"] }
