[package]
name = "gateway_engine"
version = "0.1.0"
edition = "2021"
publish = false

[dependencies]
serde = { version = "*", features = ["derive"] }
serde_json = "*"
log = "*"
log4rs = "*"
actix = "*"
actix-web = "*"
awc = "*"
futures = "*"
