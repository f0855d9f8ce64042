[package]
name = "rusty_api"
version = "0.1.0"
edition = "2021"
publish = false

[dependencies]
hmac = "0.12"
jwt = "0.16"
sha2 = "0.10"
argonautica = "0.2"
serde = { version = "1", features = ["derive"] }
actix-web = "4"
actix-web-httpauth = "0.8"
