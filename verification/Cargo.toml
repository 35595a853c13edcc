[package]
name = "ryot"
version = "0.1.0"
edition = "2021"
publish = false

[dependencies]
anyhow = "=1.0.104"
apalis = { version = "=0.4.9", default-features = false, features = ["sqlite", "chrono", "tokio-comp"] }
argon2 = "=0.5.3"
async-graphql = { version = "=5.0.10", default-features = false, features = ["chrono", "decimal"] }
chrono = "=0.4.45"
cookie = "=0.17.0"
enum_meta = "=0.6.0"
futures = "=0.3.34"
http = "=0.2.12"
itertools = "=0.10.5"
markdown = "=1.0.0"
rust_decimal = "=1.43.0"
sea-orm = { version = "=0.11.3", default-features = false, features = ["macros", "with-chrono", "with-json", "with-rust_decimal"] }
sea-query = "=0.28.5"
serde = { version = "=1.0.229", features = ["derive"] }
serde_json = "=1.0.154"
slug = "=0.1.6"
strum = { version = "=0.24.1", features = ["derive"] }
tracing = "=0.1.44"
uuid = { version = "=1.29.0", features = ["v4"] }
