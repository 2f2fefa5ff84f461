[package]
name = "fiducia-backend"
version = "0.1.0"
edition = "2021"
publish = false

[dependencies]
axum = { version = "0.7", features = ["ws", "macros"] }
hex = "0.4"
maud = { version = "0.26", features = ["axum"] }
reqwest = { version = "0.12", default-features = false, features = ["json", "rustls-tls"] }
sea-orm = { version = "1", default-features = false, features = ["macros", "with-chrono", "with-json", "with-uuid", "sqlx-postgres", "runtime-tokio-rustls"] }
serde = { version = "1", features = ["derive"] }
serde_json = "1"
sha2 = "0.10"
tokio = { version = "1", features = ["macros", "rt-multi-thread", "net", "signal", "fs", "time"] }
tower-http = { version = "0.5", features = ["catch-panic", "cors", "fs", "limit", "set-header", "timeout", "trace"] }
tracing = "0.1"
uuid = { version = "1", features = ["v4"] }
