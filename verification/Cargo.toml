[package]
name = "amqp_pool"
version = "0.1.0"
edition = "2021"
publish = false

[dependencies]
lapin = { version = "=4.12.0", default-features = false }
futures = "*"
