[package]
name = "isahc"
version = "0.1.0"
edition = "2021"
publish = false

[dependencies]
curl = "0.4"
futures-io = "0.3"
futures-lite = "1"
futures-util = { version = "0.3", features = ["io"] }
http = "0.2"
json = "0.12"
lazy_static = "1"
log = "0.4"
serde = "1"
serde_json = "1"
sluice = "0.5"
