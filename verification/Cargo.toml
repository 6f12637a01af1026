[package]
name = "kvm_install_vm"
version = "0.1.0"
edition = "2021"
publish = false

[dependencies]
anyhow = "1"
clap = { version = "4", features = ["derive"] }
dirs = "5"
futures-util = "0.3"
indicatif = "0.17"
reqwest = { version = "0.11", default-features = false, features = ["stream"] }
serde = { version = "1", features = ["derive"] }
tokio = { version = "1", features = ["rt-multi-thread", "fs", "io-util", "macros"] }
toml = "0.8"
tracing = "0.1"
tracing-subscriber = "0.3"
virt = "0.3"
