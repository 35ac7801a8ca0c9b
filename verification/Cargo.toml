[package]
name = "table_export"
version = "0.1.0"
edition = "2021"
publish = false

[dependencies]
chrono = "0.4"
csv = "1"
dotenvy = "0.15"
serde_json = "1"
sqlx = { version = "0.8", default-features = false, features = ["mysql", "runtime-tokio", "chrono", "json"] }
tokio = { version = "1", features = ["rt-multi-thread", "macros"] }
