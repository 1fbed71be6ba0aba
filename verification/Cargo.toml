[package]
name = "synapse_sdk"
version = "0.1.0"
edition = "2021"
publish = false

[dependencies]
ethers = "2.0"
serde = { version = "1", features = ["derive"] }
thiserror = "1"
