[package]
name = "dvrf_core"
version = "0.1.0"
edition = "2021"
publish = false

[dependencies]
substrate-bn = "=0.6.0"
k256 = "=0.13.4"
rand = "=0.8.8"
sha3 = "=0.10.9"
