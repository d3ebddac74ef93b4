[package]
name = "video_downloader"
version = "0.1.0"
edition = "2021"
publish = false

[dependencies]
chrono = "0.4"
m3u8-rs = "6"
regex = "1"
tokio = { version = "1", features = ["full"] }
url = "2"
uuid = { version = "1", features = ["v4"] }
chromiumoxide = { version = "0.7", default-features = false, features = ["tokio-runtime"] }
dirs = "5"
futures = "0.3"
opener = "0.7"
reqwest = { version = "0.12", features = ["stream"] }
serde = { version = "1", features = ["derive"] }
serde_json = "1"
thiserror = "1"
