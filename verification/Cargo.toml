[package]
name = "registration"
version = "0.1.0"
edition = "2021"
publish = false

[dependencies]
bcrypt = "*"
validator = "0.16"
chrono = "0.4"
serde = { version = "1", features = ["derive"] }
actix-web = "4"
actix-session = { version = "0.9", features = ["cookie-session"] }
actix-cors = "0.7"
sqlx = { version = "0.6", default-features = false, features = ["postgres", "runtime-tokio-rustls", "chrono"] }
lettre = { version = "0.10", default-features = false, features = ["smtp-transport", "pool", "hostname", "builder", "rustls-tls"] }
dotenvy = "0.15"
