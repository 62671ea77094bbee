[package]
name = "relayer"
version = "0.1.0"
edition = "2021"
publish = false

[dependencies]
anyhow = "1"
async-trait = "0.1"
ethers-core = "2.0"
ethers-providers = { version = "2.0", default-features = false }
fuel-core-services = "0.20"
fuel-core-storage = "0.20"
fuel-core-types = "0.20"
futures = "0.3"
tokio = { version = "1", features = ["macros", "rt", "sync", "time"] }
