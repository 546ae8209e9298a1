[package]
name = "nyat"
version = "0.1.0"
edition = "2021"
publish = false

[dependencies]
actix-web = { version = "4", default-features = false, features = ["macros"] }
anyhow = "1"
argon2 = { version = "0.5", features = ["std"] }
bytes = "1"
chrono = { version = "0.4", default-features = false, features = ["std", "clock"] }
config = { version = "0.14", default-features = false, features = ["yaml"] }
jsonwebtoken = "9"
serde = { version = "1", features = ["derive"] }
serde_json = "1"
sqlx = { version = "0.8", default-features = false, features = ["runtime-tokio", "postgres"] }
thiserror = "2"
tokio = { version = "1", features = ["macros", "rt-multi-thread"] }
tracing = "0.1"
tracing-actix-web = "0.7"
url = { version = "2", features = ["serde"] }
