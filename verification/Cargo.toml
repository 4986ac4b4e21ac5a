[package]
name = "rustracing_jaeger"
version = "1.2.0"
edition = "2021"
publish = false

[dependencies]
cf-rustracing = "1"
hostname = "0.4"
local-ip-address = "0.6"
rand = "0.8"
thrift_codec = "0.3"
tokio = { version = "1", features = ["net", "rt", "sync"] }
trackable = "1"
