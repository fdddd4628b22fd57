[package]
name = "attestation_gateway"
version = "0.1.0"
edition = "2021"
publish = false

[dependencies]
axum = { version = "*", default-features = false, features = ["http1", "json", "tokio"] }
serde = { version = "*", features = ["derive"] }
serde_json = "*"
tokio = { version = "*", default-features = false, features = ["rt-multi-thread", "net", "macros"] }
