[package]
name = "ryot_misc"
version = "0.1.0"
edition = "2021"
publish = false

[dependencies]
apalis = "=0.4.9"
argon2 = "=0.5.3"
async-graphql = { version = "=5.0.10", features = ["chrono", "decimal"] }
chrono = { version = "=0.4.45", features = ["serde"] }
cookie = "=0.17.0"
futures = "=0.3.34"
http = "=0.2.12"
rust_decimal = "=1.43.0"
sea-orm = { version = "=0.11.3", default-features = false, features = ["macros", "with-chrono", "with-json", "with-rust_decimal"] }
sea-query = "=0.28.5"
serde = { version = "=1.0.229", features = ["derive"] }
serde_json = "=1.0.154"
strum = { version = "=0.25.0", features = ["derive"] }
tracing = "=0.1.44"
uuid = { version = "=1.29.0", features = ["v4"] }
