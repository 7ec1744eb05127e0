[package]
name = "sgc_services"
version = "0.1.0"
edition = "2021"
publish = false

[dependencies]
futures = "=0.3.34"
log = "=0.4.35"
openssl = "=0.10.82"
redis-async = "=0.18.0"
serde = { version = "=1.0.229", features = ["derive"] }
serde_json = "=1.0.154"
tokio = { version = "=1.54.1", features = ["full"] }
tokio-openssl = "=0.6.5"
udp-stream = "=0.0.13"
