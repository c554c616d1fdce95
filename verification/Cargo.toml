[package]
name = "linjector"
version = "0.1.0"
edition = "2021"
publish = false

[dependencies]
object = { version = "*", default-features = false, features = ["read"] }
crossbeam-queue = "*"
once_cell = "*"
parking_lot = "*"
