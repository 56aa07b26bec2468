[package]
name = "dbtui"
version = "0.1.0"
edition = "2021"
publish = false

[dependencies]
anyhow = "*"
chrono = "*"
crossterm = "0.25"
futures = "*"
regex = "*"
rust_decimal = "*"
serde_json = "*"
sqlx = { version = "*", default-features = false, features = ["mysql", "postgres", "sqlite", "chrono", "rust_decimal", "json", "runtime-tokio-rustls"] }
tokio = { version = "*", features = ["full"] }
tui = "*"
unicode-width = "*"
