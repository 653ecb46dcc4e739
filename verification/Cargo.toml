[package]
name = "suspension_core"
version = "0.1.0"
edition = "2021"
publish = false

[dependencies]
rocket = { version = "0.5", features = ["json"] }
sqlx = { version = "0.8", default-features = false, features = ["runtime-tokio", "postgres", "derive"] }
dotenvy = "0.15"
