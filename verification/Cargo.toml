[package]
name = "expense_api"
version = "0.1.0"
edition = "2021"
publish = false

[dependencies]
bytes = "=1.12.1"
chrono = { version = "=0.4.45", features = ["serde"] }
rust_decimal = "=1.43.0"
secrecy = { version = "=0.8.0", features = ["bytes"] }
serde = { version = "=1.0.229", features = ["derive"] }
sqlx = { version = "=0.7.4", default-features = false, features = ["postgres", "runtime-tokio", "chrono", "rust_decimal"] }
rocket = { version = "=0.5.2", features = ["json"] }
