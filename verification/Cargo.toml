[package]
name = "ssri_runner"
version = "0.1.0"
edition = "2021"
publish = false

[dependencies]
anyhow = "1"
ckb-hash = "*"
ckb-jsonrpc-types = "*"
ckb-sdk = "*"
ckb-types = "*"
ckb-vm = { version = "0.24", features = ["asm"] }
clap = { version = "4", default-features = false, features = ["std", "help", "usage", "error-context"] }
hex = "0.4"
jsonrpc-core = "18"
jsonrpsee = { version = "0.24", default-features = false, features = ["server", "macros"] }
reqwest = { version = "0.12", default-features = false, features = ["json"] }
serde = { version = "1", features = ["derive"] }
tokio = { version = "1", default-features = false, features = ["macros", "rt-multi-thread", "signal"] }
tracing-subscriber = { version = "0.3", default-features = false, features = ["fmt", "env-filter"] }
