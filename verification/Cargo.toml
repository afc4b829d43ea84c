[package]
name = "contract_client"
version = "0.1.0"
edition = "2021"
publish = false

[dependencies]
libp2p = { version = "*", default-features = false }
sha3 = "*"
semver = "*"
tokio = { version = "*", features = ["rt", "time", "macros"] }
tokio-stream = "*"
futures-core = "*"
async-trait = "*"
clap = { version = "*", features = ["derive", "env"] }
anyhow = "*"
log = "*"
env_logger = "*"
