[package]
name = "ganache_harness"
version = "0.1.0"
edition = "2021"
publish = false

[dependencies]
ethers = { version = "2.0", features = ["ws", "ethers-solc"] }
eyre = "0.6"
