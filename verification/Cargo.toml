[package]
name = "paraloom"
version = "0.1.0"
edition = "2021"

[dependencies]
anyhow = "1"
async-trait = "0.1"
clap = { version = "4", features = ["derive"] }
env_logger = "0.10"
libp2p = { version = "0.52", default-features = false, features = ["gossipsub", "noise", "tcp", "tokio", "yamux"] }
log = "0.4"
rocksdb = "0.21"
serde = { version = "1", features = ["derive"] }
sysinfo = "0.29"
tokio = { version = "1", features = ["macros", "rt-multi-thread", "sync", "time"] }
toml = "0.7"
