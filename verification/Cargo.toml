[package]
name = "vesting"
version = "0.1.0"
edition = "2021"
publish = false

[dependencies]
num-traits = { version = "=0.2.19", default-features = false }
casper-contract = { version = "=1.4.4", default-features = false }
casper-types = "=1.5.0"
