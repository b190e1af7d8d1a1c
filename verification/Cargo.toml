[package]
name = "back"
version = "0.1.0"
edition = "2021"
publish = false

[dependencies]
askama = "*"
axum = { version = "0.8", features = ["multipart"] }
axum-extra = { version = "*", features = ["cookie"] }
chrono = "0.4"
dotenv = "0.15"
ndarray = "0.16"
ndarray-npy = "0.9"
reqwest = { version = "0.12", default-features = false }
serde = { version = "1", features = ["derive"] }
serde_json = "1"
sqlx = { version = "0.8", default-features = false, features = ["postgres", "runtime-tokio", "macros", "chrono", "migrate"] }
tch = "*"
tokio = { version = "1", features = ["full"] }
tower-http = { version = "0.6", features = ["cors", "fs"] }
tracing = "0.1"
tracing-subscriber = "0.3"
uuid = { version = "1", features = ["v4"] }
