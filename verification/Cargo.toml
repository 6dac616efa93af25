[package]
name = "hiatus"
version = "0.1.1"
edition = "2021"
publish = false

[dependencies]
lazy_static = "1.4"
parking_lot = "0.12"

[dev-dependencies]
crossbeam-utils = "0.8"
