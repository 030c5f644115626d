[package]
name = "pods"
version = "0.1.0"
edition = "2021"
publish = false

[dependencies]
axum = "=0.6.20"
http = "=0.2.12"
reqwest = { version = "=0.11.27", default-features = false, features = ["rustls-tls"] }
roxmltree = "=0.21.2"
serde = { version = "=1.0.229", features = ["derive"] }
tokio = { version = "=1.54.1", features = ["macros", "rt-multi-thread", "sync"] }
uuid = { version = "=1.29.0", features = ["v4", "serde"] }
