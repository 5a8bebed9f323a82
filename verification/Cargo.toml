[package]
name = "frame_transport"
version = "0.1.0"
edition = "2021"
publish = false

[dependencies]
bytes = "1"
serde = "1"
tokio = { version = "1", features = ["net", "io-util"] }
amqp_serde = "*"
