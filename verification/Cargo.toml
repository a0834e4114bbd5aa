[package]
name = "mdns_resolve"
version = "0.1.0"
edition = "2021"
publish = false

[dependencies]
async-std = "1"
futures-util = "0.3"
