[package]
name = "vista"
version = "0.1.0"
edition = "2021"
publish = false

[dependencies]
serde = { version = "=1.0.229", features = ["derive"] }
serde_json = "=1.0.154"
base64 = "=0.21.7"
solana-sdk = "=5.0.0"
tokio = { version = "=1.54.1", features = ["full"] }
async-trait = "=0.1.92"
thiserror = "=1.0.69"
libloading = "=0.8.9"
futures = "=0.3.34"
async-stream = "=0.3.6"
sqlx = { version = "*", default-features = false, features = ["postgres"] }
async-graphql = "*"
actix-web = { version = "*", default-features = false, features = ["macros"] }
async-graphql-actix-web = "*"

[dev-dependencies]
borsh = "=1.8.1"
