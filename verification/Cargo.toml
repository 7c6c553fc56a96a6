[package]
name = "faenger"
version = "0.1.0"
edition = "2021"
publish = false

[dependencies]
anyhow = "=1.0.104"
argon2 = { version = "=0.5.3", features = ["std"] }
axum = "=0.8.9"
chrono = "=0.4.45"
config = { version = "=0.15.27", default-features = false, features = ["toml"] }
diesel = { version = "=2.3.14", features = ["sqlite", "r2d2"] }
libsqlite3-sys = { version = "=0.38.2", features = ["bundled"] }
dotenvy = "=0.15.7"
log = "=0.4.35"
pretty_env_logger = "=0.5.0"
r2d2 = "=0.8.10"
rand = "=0.9.5"
reqwest = { version = "=0.12.28", default-features = false, features = ["json", "rustls-tls"] }
serde = { version = "=1.0.229", features = ["derive"] }
tokio = { version = "=1.54.1", features = ["full"] }
url = "=2.5.8"
