[package]
name = "gatehouse"
version = "0.1.0"
edition = "2021"
publish = false

[dependencies]
async-trait = "0.1"
tracing = "0.1"
uuid = { version = "1", features = ["v4"] }
