[package]
name = "alkahest"
version = "0.1.0"
edition = "2021"
publish = false

[dependencies]
alloy = { version = "=1.8.3", default-features = false, features = ["std", "sol-types", "signers", "signer-local", "consensus", "dyn-abi"] }
alloy-dyn-abi = { version = "=1.7.3", default-features = false, features = ["std", "eip712"] }
async-trait = "=0.1.92"
eyre = "=0.6.14"
serde = { version = "=1.0.229", features = ["derive"] }
serde_json = "=1.0.154"
tokio = { version = "=1.54.1", features = ["process", "rt", "macros"] }
