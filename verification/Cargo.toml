[package]
name = "onshape-mcp"
version = "0.1.0"
edition = "2021"
publish = false

[dependencies]
aes-gcm = "0.10"
axum = "0.8"
base64 = "0.22"
chrono = { version = "0.4", features = ["serde"] }
clap = { version = "4", features = ["derive"] }
figment = { version = "0.10", features = ["env", "toml"] }
http = "1"
oauth2 = { version = "5", default-features = false }
oauth2-reqwest = "0.1.0-alpha.3"
open = "5"
rand = "0.10"
reqwest = { version = "*", default-features = false, features = ["json"] }
secrecy = { version = "0.10", features = ["serde"] }
serde = { version = "1", features = ["derive"] }
serde_json = "1"
sha2 = "0.10"
subtle = "2"
tempfile = "3"
thiserror = "2"
tokio = { version = "1", features = ["full"] }
tower-http = { version = "0.6", features = ["cors", "limit"] }
url = "2"
