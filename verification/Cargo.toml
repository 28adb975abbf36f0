[package]
name = "hotdog"
version = "0.1.0"
edition = "2021"
publish = false

[dependencies]
async-std = "1"
async-tls = "0.6"
crossbeam = "0.8"
dipstick = "0.9"
futures = { version = "0.3", features = ["thread-pool"] }
rdkafka = "0.26"
rustls = "0.16"
