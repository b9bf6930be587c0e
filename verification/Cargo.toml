[package]
name = "clitrix"
version = "0.1.0"
edition = "2021"
publish = false

[dependencies]
ratatui = "=0.29.0"
chrono = { version = "=0.4.45", default-features = false, features = ["clock", "std"] }
url = "=2.5.8"
tokio = { version = "=1.54.1", features = ["macros", "rt-multi-thread", "time"] }
matrix-sdk = { version = "=0.16.1", default-features = false, features = ["rustls-tls"] }
serde = { version = "=1.0.229", features = ["derive"] }
toml = "=0.9.12"
dirs = "=6.0.0"
