[package]
name = "discord_oidc"
version = "0.1.0"
edition = "2021"
publish = false

[dependencies]
anyhow = "1"
base64-url = "*"
js-sys = "0.3"
jsonwebtoken = "9"
log = "0.4"
rand = "0.8"
rsa = "0.9"
serde = { version = "1", features = ["derive"] }
serde_json = "1"
serde_urlencoded = "0.7"
thiserror = "*"
worker = "*"
