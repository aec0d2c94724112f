[package]
name = "msggram"
version = "0.1.0"
edition = "2021"
publish = false

[dependencies]
axum = { version = "0.8", features = ["ws"] }
axum-extra = { version = "*", features = ["cookie"] }
deadpool-postgres = "*"
dotenvy = "*"
serde = { version = "1", features = ["derive"] }
serde_json = "1"
tokio = { version = "1", features = ["full"] }
tokio-postgres = { version = "0.7", features = ["with-uuid-1"] }
tower-http = { version = "*", features = ["fs"] }
uuid = { version = "1", features = ["serde", "v4"] }
