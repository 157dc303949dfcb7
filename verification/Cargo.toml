[package]
name = "auth_token"
version = "0.2.0"
edition = "2021"
publish = false

[dependencies]
pkce = "*"
rand = "0.8"
serde_json = "*"
scraper = "*"
reqwest = { version = "*", default-features = false }
serde = { version = "*", features = ["derive"] }
tokio = { version = "*", features = ["rt-multi-thread", "macros"] }
base64 = "*"
clap = "*"
colored = "*"
rpassword = "*"
clipboard = "*"

[dev-dependencies]
sha2 = "*"
