[package]
name = "pool_contention"
version = "0.1.0"
edition = "2021"
publish = false

[dependencies]
actix-web = { version = "=4.18.1", default-features = false, features = ["macros", "rustls-0_20"] }
chrono = "=0.4.45"
dotenv = "=0.15.0"
env_logger = "=0.9.3"
log = "=0.4.34"
rustls = "=0.20.9"
rustls-pemfile = "=1.0.4"
serde_json = "=1.0.154"
sqlx = { version = "=0.5.13", default-features = false, features = ["runtime-tokio-rustls", "postgres"] }
thiserror = "=1.0.30"
tokio = { version = "=1.54.1", features = ["rt", "time"] }
