[package]
name = "isuumo"
version = "0.1.0"
edition = "2021"
publish = false

[dependencies]
actix-multipart = "*"
actix-rt = "*"
actix-web = { version = "*", default-features = false, features = ["macros"] }
bytes = "*"
csv = "*"
env_logger = "*"
futures = "*"
listenfd = "*"
log = "*"
mysql = "*"
r2d2 = "*"
r2d2_mysql = "*"
serde = { version = "*", features = ["derive"] }
serde_json = "*"
tokio = { version = "*", features = ["process"] }
