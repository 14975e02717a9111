[package]
name = "slauncher-backend"
version = "0.1.0"
edition = "2021"
publish = false

[dependencies]
actix-web = { version = "4", default-features = false, features = ["macros"] }
anyhow = "1"
async-trait = "0.1"
env_logger = { version = "0.11", default-features = false }
log = "0.4"
reqwest = { version = "0.12", default-features = false, features = ["rustls-tls"] }
sea-orm = { version = "1", default-features = false, features = ["macros", "sqlx-sqlite", "runtime-tokio-rustls"] }
serde = { version = "1", features = ["derive"] }
thiserror = "2"
tokio = { version = "1", features = ["fs", "process", "macros", "rt-multi-thread"] }
