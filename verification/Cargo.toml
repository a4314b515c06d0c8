[package]
name = "tid"
version = "0.1.0"
edition = "2021"
publish = false

[dependencies]
num = "0.4"
num-derive = "0.4"
parking_lot = "0.12"
thiserror = "1"
