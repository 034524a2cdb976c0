[package]
name = "simple_budget"
version = "0.1.0"
edition = "2021"
publish = false

[dependencies]
axum = "0.7"
bson = { version = "2", features = ["chrono-0_4"] }
chrono = { version = "0.4", features = ["serde"] }
log = "0.4"
mongodb = "3"
serde = { version = "1", features = ["derive"] }
tera = "1"
tokio = { version = "1", features = ["rt-multi-thread", "net", "macros"] }
validator = { version = "0.20", features = ["derive"] }
