[package]
name = "matrix-identity-admin"
version = "0.1.0"
edition = "2021"
publish = false

[dependencies]
subtle = "2.6"
rand = "0.9"
base64 = "0.22"
uuid = { version = "1", features = ["v4"] }
chrono = { version = "0.4", default-features = false, features = ["clock", "std"] }
percent-encoding = "2"
serde = { version = "1", features = ["derive"] }
serde_json = "1"
axum = "0.8"
axum-extra = { version = "0.10", features = ["cookie-private"] }
askama = "0.12"
tokio = { version = "1", features = ["macros", "rt-multi-thread", "net", "sync"] }
reqwest = { version = "0.12", default-features = false, features = ["json", "rustls-tls"] }
sqlx = { version = "0.8", default-features = false, features = ["sqlite", "runtime-tokio", "migrate", "macros"] }
openidconnect = "3.5"
tracing = "0.1"
tracing-subscriber = { version = "0.3", features = ["env-filter", "fmt"] }
tower-http = { version = "0.6", features = ["fs", "timeout"] }
sha2 = "0.10"
dotenvy = "0.15"
anyhow = "1"
thiserror = "2"
async-trait = "0.1"
cookie = "0.18"
