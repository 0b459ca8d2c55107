[package]
name = "todo_api"
version = "0.1.0"
edition = "2021"
publish = false

[dependencies]
uuid = { version = "=1.29.1", features = ["v4", "serde"] }
hex_color = "=3.0.0"
serde = { version = "=1.0.229", features = ["derive"] }
serde_json = "=1.0.154"
chrono = { version = "=0.4.45", features = ["serde"] }
axum = "=0.8.9"
axum-extra = { version = "=0.10.3", features = ["cookie"] }
axum-jwt-auth = "=0.7.0"
tokio = { version = "=1.54.1", features = ["full"] }
tokio-postgres = { version = "=0.7.18", features = ["with-chrono-0_4", "with-uuid-1"] }
deadpool-postgres = "=0.14.2"
argon2 = "=0.5.3"
password-hash = { version = "=0.5.0", features = ["getrandom"] }
jsonwebtoken = { version = "=10.4.0", features = ["rust_crypto"] }
dotenvy = "=0.15.7"
tower = "=0.5.3"
tower-http = { version = "=0.6.11", features = ["cors"] }
bytes = "=1.12.1"
bitflags = { version = "=2.13.2", features = ["serde"] }
