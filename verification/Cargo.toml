[package]
name = "tokio_quic"
version = "0.1.0"
edition = "2021"
publish = false

[dependencies]
bytes = "*"
ring = "*"
quiche = "*"
tokio = { version = "*", features = ["net", "sync", "time", "io-util", "rt", "rt-multi-thread", "macros"] }
log = "*"
rand = "*"
