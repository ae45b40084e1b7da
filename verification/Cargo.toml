[package]
name = "gossip_probe"
version = "0.1.0"
edition = "2021"
publish = false

[dependencies]
bitcoin = "0.29"
clap = { version = "4", features = ["derive"] }
lightning = "=0.0.112"
lightning-net-tokio = "=0.0.112"
secp256k1 = { version = "0.24", features = ["rand-std"] }
tokio = { version = "1", features = ["macros", "rt-multi-thread", "time"] }
