[package]
name = "evm_client"
version = "0.1.0"
edition = "2021"
publish = false

[dependencies]
alloy = { version = "*", default-features = false, features = ["std", "consensus", "eips", "signer-local"] }
alloy-chains = "*"
rand = "=0.9.5"
serde_json = "*"
serde = { version = "*", features = ["derive"] }
tokio = { version = "*", features = ["rt-multi-thread", "macros", "fs", "io-util", "time"] }
reqwest = { version = "*", default-features = false, features = ["json"] }
toml = "*"
url = "*"
