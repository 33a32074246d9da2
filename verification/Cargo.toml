[package]
name = "cbf_chain_source"
version = "0.1.0"
edition = "2021"
publish = false

[dependencies]
bdk_chain = { version = "=0.23.4", default-features = false, features = ["std"] }
bdk_wallet = { version = "=2.4.0", default-features = false, features = ["std"] }
bip157 = "=0.6.3"
bitcoin = "=0.32.102"
electrum-client = { version = "=0.24.2", default-features = false, features = ["proxy", "use-rustls-ring"] }
esplora-client = { version = "=0.12.3", default-features = false, features = ["async", "tokio"] }
lightning = "=0.2.7"
serde_json = "=1.0.154"
tokio = { version = "=1.54.1", features = ["rt", "rt-multi-thread", "time", "sync", "macros"] }
