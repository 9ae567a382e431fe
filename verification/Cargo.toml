[package]
name = "msg_boundary"
version = "0.1.0"
edition = "2021"
publish = false

[dependencies]
crypto-market-type = "=1.1.6"
crypto-msg-type = "=1.0.12"
crypto-msg-parser = "=2.9.2"
protobuf = "=3.5.0"
serde_json = "=1.0.154"

[dev-dependencies]
crypto-message = "=1.1.21"
float-cmp = "=0.10.0"
