[package]
name = "purchase_json"
version = "0.1.0"
edition = "2021"
publish = false

[dependencies]
bigdecimal = "0.4"
chrono = { version = "0.4", features = ["serde"] }
color-eyre = "*"
dotenvy = "*"
poem = "*"
poem-openapi = { version = "*", features = ["chrono", "openapi-explorer"] }
serde = { version = "1", features = ["derive"] }
sqlx = { version = "*", default-features = false, features = ["postgres", "runtime-tokio", "chrono", "bigdecimal", "derive"] }
tokio = { version = "1", features = ["macros", "rt-multi-thread"] }
tracing = "*"
tracing-subscriber = "*"
