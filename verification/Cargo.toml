[package]
name = "matrix_account"
version = "0.1.0"
edition = "2021"
publish = false

[dependencies]
anyhow = "1"
futures-util = "0.3"
matrix-sdk = { version = "0.14", default-features = false, features = ["e2e-encryption", "sqlite", "bundled-sqlite", "rustls-tls"] }
mime = "0.3"
tokio = { version = "1", features = ["rt", "sync"] }
tracing = "0.1"
