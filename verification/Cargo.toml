[package]
name = "readwise_sync"
version = "0.1.0"
edition = "2021"
publish = false

[dependencies]
anyhow = "1"
chrono = "0.4"
dotenvy = "0.15"
env_logger = "*"
log = "0.4"
serde = { version = "1", features = ["derive"] }
serde_json = "1"
serde_path_to_error = "0.1"
sqlx = { version = "*", default-features = false, features = ["postgres", "runtime-tokio", "chrono", "json", "migrate"] }
tokio = { version = "1", features = ["rt", "macros"] }
ureq = "2"
