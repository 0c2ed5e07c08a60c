[package]
name = "site_core"
version = "0.1.0"
edition = "2021"
publish = false

[dependencies]
aws-config = "=1.12.0"
aws-sdk-s3 = "=1.152.0"
axum = "=0.8.9"
chrono = "=0.4.45"
dotenv = "=0.15.0"
futures-util = "=0.3.34"
gray_matter = { version = "=0.3.2", features = ["toml"] }
lastfm = "=0.10.0"
markdown = "=1.0.0"
octocrab = "=0.40.0"
serde = { version = "=1.0.229", features = ["derive"] }
serde_json = "=1.0.151"
tera = { version = "=2.4.0", features = ["glob_fs"] }
thiserror = "=1.0.69"
tokio = { version = "=1.53.2", features = ["macros", "rt-multi-thread", "fs", "io-util", "net", "time"] }
tower-http = { version = "=0.6.11", features = ["fs"] }
