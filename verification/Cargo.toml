[package]
name = "user_service"
version = "0.1.0"
edition = "2021"
publish = false

[dependencies]
rand = "*"
anyhow = "*"
serde = { version = "*", features = ["derive"] }
tokio = { version = "*", features = ["macros", "rt-multi-thread"] }
axum = "0.6"
clap = { version = "*", features = ["derive"] }
sea-orm = { version = "*", features = ["sqlx-postgres", "runtime-tokio-rustls", "macros"] }
async-trait = "*"
