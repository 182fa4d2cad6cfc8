[package]
name = "vinyld"
version = "0.1.0"
edition = "2021"
publish = false

[dependencies]
axum = "0.6"
dotenvy = "0.15"
nanoid = "0.4"
serde = { version = "1", features = ["derive"] }
serde_json = "1"
sqlx = { version = "0.7", default-features = false, features = ["runtime-tokio", "postgres", "time", "macros", "migrate"] }
tokio = { version = "1", features = ["rt-multi-thread", "macros"] }
toml = "0.5"
