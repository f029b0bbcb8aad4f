[package]
name = "rusty_proc"
version = "0.1.0"
edition = "2021"
publish = false

[dependencies]
base64 = "*"
bs58 = "*"
solana-sdk = "2"
axum = "*"
serde = { version = "*", features = ["derive"] }
tokio = { version = "*", default-features = false, features = ["rt-multi-thread", "net", "macros"] }

[dev-dependencies]
spl-token = "6"
spl-associated-token-account = "5"
