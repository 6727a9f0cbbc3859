[package]
name = "mdotp"
version = "0.1.0"
edition = "2021"
publish = false

[dependencies]
anyhow = "*"
axum = { version = "*", features = ["ws"] }
dotenvy = "*"
envy = "*"
matrix-sdk = { version = "=0.16.1", default-features = false, features = ["native-tls"] }
serde = { version = "*", features = ["derive"] }
serde_json = "*"
thiserror = "*"
tokio = { version = "*", features = ["macros", "rt-multi-thread", "sync", "net"] }
tracing = "*"
tracing-subscriber = "*"
