[package]
name = "deferred"
version = "0.1.0"
edition = "2021"
publish = false

[dependencies]
futures-io = "0.3"
futures-sink = "0.3"
pin-utils = "0.1"
