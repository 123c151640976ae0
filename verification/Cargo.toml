[package]
name = "litemdb"
version = "0.1.0"
edition = "2021"
publish = false

[dependencies]
lmdb-rkv = "0.14"

[dev-dependencies]
tempfile = "3"
