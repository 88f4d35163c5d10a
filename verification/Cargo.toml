[package]
name = "tt2"
version = "0.1.0"
edition = "2021"
publish = false

[dependencies]
rand = "*"
paho-mqtt = "*"
tokio = { version = "*", features = ["full"] }
anyhow = "*"
log = "*"
fern = { version = "*", features = ["colored"] }
chrono = "*"
