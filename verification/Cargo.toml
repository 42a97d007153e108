[package]
name = "lendaswap_core"
version = "0.1.0"
edition = "2021"
publish = false

[dependencies]
bitcoin = "=0.32.102"
bip39 = { version = "=3.0.0", features = ["rand"] }
sha2 = "=0.11.0"
hex = "=0.4.3"
ark-rs = "=0.11.0"
ark-rest = "=0.11.0"
ark-core = "=0.11.0"
serde = { version = "1", features = ["derive"] }
serde_json = "1"
reqwest = { version = "=0.12.28", features = ["json"] }
