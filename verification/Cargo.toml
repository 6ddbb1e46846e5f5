[package]
name = "wechat_minapp"
version = "0.1.0"
edition = "2021"
publish = false

[dependencies]
aes = "0.8"
async-trait = "0.1"
base64 = "0.22"
cbc = { version = "0.1", features = ["alloc"] }
chrono = { version = "0.4", features = ["serde"] }
hex = "0.4"
hmac = "0.12"
http = "1"
reqwest = { version = "0.12", features = ["json"] }
serde = { version = "1", features = ["derive"] }
serde_json = "1"
sha2 = "0.10"
thiserror = "2"
tokio = { version = "1", features = ["sync", "rt", "macros"] }
tracing = "0.1"
url = "2"
