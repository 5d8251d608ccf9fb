[package]
name = "honeybadger_middleware"
version = "0.1.0"
edition = "2021"
publish = false

[dependencies]
actix-web = { version = "=3.3.3", default-features = false }
failure = "=0.1.8"
futures = "=0.3.34"
pin-project = "=0.4.30"
serde_urlencoded = "=0.6.1"
