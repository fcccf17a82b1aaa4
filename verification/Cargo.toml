[package]
name = "msgpack_cli"
version = "0.1.0"
edition = "2021"
publish = false

[dependencies]
clap = { version = "4", features = ["derive"] }
hex = "0.4"
rmp-serde = "1"
serde_json = "1"
serde-transcode = "1"
