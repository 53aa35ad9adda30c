[package]
name = "fluxus"
version = "0.1.0"
edition = "2021"
publish = false

[dependencies]
memchr = "2"
heapless = "0.8"
rustc-hash = "2"
tokio = { version = "1", features = ["sync", "rt", "net", "io-util", "macros", "time"] }
thiserror = "1"
eyre = "0.6"
tracing = "0.1"
owo-colors = "4"
hyper = { version = "1", features = ["server", "http1"] }
http-body-util = "0.1"
const_format = "0.2"
