[package]
name = "kaggle"
version = "0.1.0"
edition = "2021"
publish = false

[dependencies]
anyhow = "*"
base64 = "=0.23.1"
bytes = "*"
chrono = "=0.4.45"
dirs = "*"
flate2 = "*"
futures = "*"
log = "*"
reqwest = { version = "=0.13.5", default-features = false, features = ["json", "multipart", "query", "stream"] }
serde = { version = "*", features = ["derive"] }
serde_json = "*"
slug = "=0.1.6"
tar = "*"
tempdir = "=0.3.7"
thiserror = "*"
tokio = { version = "=1.53.2", features = ["rt", "macros", "fs", "io-util", "rt-multi-thread"] }
tokio-util = { version = "*", features = ["codec"] }
url = "=2.5.8"
walkdir = "*"
zip = { version = "=8.6.0", default-features = false, features = ["deflate"] }
