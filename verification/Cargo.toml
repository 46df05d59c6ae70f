[package]
name = "trivia"
version = "0.1.0"
edition = "2021"
publish = false

[dependencies]
anyhow = "=1.0.104"
argon2 = "=0.5.3"
askama = "=0.16.1"
axum = "=0.8.9"
axum-extra = { version = "=0.12.6", features = ["cookie"] }
base64 = "=0.22.1"
jiff = "=0.2.43"
rand = "=0.8.8"
rand_chacha = "=0.3.1"
rustrict = "=0.7.39"
serde = { version = "=1.0.229", features = ["derive"] }
sha2 = "=0.11.1"
sqlx = { version = "=0.8.6", default-features = false, features = ["sqlite", "runtime-tokio", "migrate"] }
tokio = { version = "=1.54.1", features = ["macros", "rt-multi-thread", "net"] }
tower-http = { version = "=0.7.1", features = ["fs"] }
tracing = "=0.1.44"
tracing-subscriber = { version = "=0.3.23", features = ["env-filter"] }
