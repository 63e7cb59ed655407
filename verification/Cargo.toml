[package]
name = "blog_api"
version = "0.1.0"
edition = "2021"
publish = false

[dependencies]
actix-web = "4"
actix-web-httpauth = "0.8"
argon2 = { version = "0.5", features = ["std"] }
chrono = "0.4"
derive_more = "0.99"
dotenvy = "0.15"
jsonwebtoken = "9"
serde = { version = "1", features = ["derive"] }
sqlx = { version = "0.7", default-features = false, features = ["runtime-tokio", "postgres", "macros"] }
