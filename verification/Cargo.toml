[package]
name = "enviame"
version = "0.1.0"
edition = "2021"
publish = false

[dependencies]
anyhow = "*"
axum = "=0.8.9"
axum_csrf = { version = "=0.11.0", features = ["layer"] }
chrono = "=0.4.45"
chrono-tz = "*"
dotenvy = "*"
hex = "=0.4.3"
hmac = "=0.13.0"
icalendar = { version = "=0.17.14", features = ["parser", "chrono-tz"] }
lettre = { version = "=0.11.23", default-features = false, features = ["smtp-transport", "builder", "rustls-tls"] }
once_cell = "*"
rand = "=0.10.3"
reqwest = { version = "=0.13.5", default-features = false, features = ["form", "json"] }
serde = { version = "*", features = ["derive"] }
sha2 = "=0.11.0"
sqlx = { version = "=0.9.0", default-features = false, features = ["runtime-tokio", "postgres", "chrono"] }
tokio = { version = "*", features = ["rt-multi-thread", "macros", "time", "sync", "net"] }
