[package]
name = "processbot"
version = "0.1.0"
edition = "2021"
publish = false

[dependencies]
log = "0.4"
parking_lot = "0.12"
rocksdb = "*"
serde_json = "1"
snafu = "0.6"
