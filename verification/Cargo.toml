[package]
name = "conduit"
version = "0.1.0"
edition = "2021"
publish = false

[dependencies]
anyhow = "=1.0.104"
argon2 = "=0.5.3"
async-trait = "=0.1.92"
axum = { version = "=0.6.20", features = ["headers"] }
bytes = "=1.12.1"
cder = "=0.2.2"
chrono = "=0.4.45"
dotenvy = "=0.15.7"
jsonwebtoken = "=9.3.1"
rand_core = { version = "=0.6.4", features = ["std"] }
sea-orm = { version = "=0.12.15", default-features = false, features = ["macros", "with-chrono", "with-uuid", "with-json", "sqlx-postgres", "sqlx-sqlite", "runtime-tokio-rustls"] }
sea-orm-migration = { version = "=0.12.15", default-features = false, features = ["sqlx-postgres", "sqlx-sqlite", "runtime-tokio-rustls"] }
serde = { version = "=1.0.229", features = ["derive"] }
serde_json = "=1.0.154"
slug = "=0.1.6"
tokio = { version = "=1.54.1", features = ["macros", "rt-multi-thread"] }
tower = "=0.4.13"
uuid = { version = "=1.29.0", features = ["v4", "serde"] }
