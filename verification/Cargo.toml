[package]
name = "showcase"
version = "0.1.0"
edition = "2021"
publish = false

[dependencies]
rosace = "*"
rosace-ffi = "*"
serde_json = "1"
