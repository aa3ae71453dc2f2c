[package]
name = "summer_boot"
version = "0.1.0"
edition = "2021"
publish = false

[dependencies]
h2 = "0.3"
bytes = "1"
http = "0.2"
http-types = "2"
tokio = { version = "1", features = ["net", "rt", "time", "io-util"] }
async-std = "1"
async-h1 = "2"
async-trait = "0.1"
futures-core = "0.3"
pin-project-lite = "0.2"
log = "0.4"
derive_more = "0.99"
