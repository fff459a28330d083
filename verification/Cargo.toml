[package]
name = "rustify"
version = "0.1.0"
edition = "2021"
publish = false

[dependencies]
serde = { version = "=1.0.229", features = ["derive"] }
serde_json = "=1.0.151"
bytes = "=1.12.1"
http = "=1.5.0"
async-trait = "*"
log = "*"
