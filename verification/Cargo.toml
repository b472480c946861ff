[package]
name = "timeflake"
version = "0.1.0"
edition = "2021"
publish = false

[dependencies]
base62 = "2"
hex = "0.4"
num-bigint = "0.4"
num-traits = "0.2"
rand = "0.9"
utcnow = "0.2"
uuid = "1"
