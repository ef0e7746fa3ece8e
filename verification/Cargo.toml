[package]
name = "chesslive"
version = "0.1.0"
edition = "2021"
publish = false

[dependencies]
base32 = "*"
chrono = "0.4"
dotenv = "0.15"
futures = "0.3"
futures-util = "0.3"
lazy_static = "1"
mongodb = "2"
rand = "0.8"
serde = { version = "1", features = ["derive"] }
serde_json = "1"
shakmaty = "*"
tokio = { version = "1", features = ["full"] }
uuid = { version = "1", features = ["v4"] }
warp = "0.3"
