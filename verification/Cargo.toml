[package]
name = "ip_echo"
version = "0.1.0"
edition = "2021"
publish = false

[dependencies]
async-std = "1"
serde_json = "1"
