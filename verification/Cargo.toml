[package]
name = "calldata_inspector"
version = "0.1.0"
edition = "2021"
publish = false

[dependencies]
alloy-sol-types = "0.8"
ethabi = "18"
hex = "0.4"
hex-literal = "0.4"
