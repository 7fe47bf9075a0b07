[package]
name = "contract_verification_migrator"
version = "0.1.0"
edition = "2021"
publish = false

[dependencies]
hex = "0.4"
serde_json = "1"
eyre = "0.6"
clap = { version = "4", features = ["derive"] }
tokio = { version = "1", features = ["macros", "rt-multi-thread", "time"] }
futures = "0.3"
indicatif = "0.17"
console = "0.15"
foundry-block-explorers = "*"
