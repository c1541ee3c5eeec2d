[package]
name = "shorten_rs"
version = "0.1.0"
edition = "2021"
publish = false

[dependencies]
actix-cors = "=0.7.2"
actix-session = { version = "=0.10.1", features = ["cookie-session"] }
actix-web = "=4.18.1"
actix-web-validator = "=7.0.0"
anyhow = "=1.0.104"
argon2 = "=0.5.3"
dotenv = "=0.15.0"
futures-util = "=0.3.34"
rand = "=0.9.5"
rand_core = { version = "=0.6.4", features = ["getrandom"] }
regex = "=1.13.1"
serde = { version = "=1.0.229", features = ["derive"] }
sqlx = { version = "=0.8.6", default-features = false, features = ["runtime-tokio", "sqlite"] }
validator = "=0.20.0"
