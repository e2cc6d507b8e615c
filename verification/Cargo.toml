[package]
name = "edge_router"
version = "0.1.0"
edition = "2021"
publish = false

[dependencies]
chrono = "=0.4.45"
fastly = "=0.8.9"
hex = "=0.4.3"
hmac = "=0.12.1"
regex = "=1.13.1"
sha2 = "=0.10.9"
