[package]
name = "dlmm_monitor"
version = "0.1.0"
edition = "2021"
publish = false

[dependencies]
solana-program = "2"
mpl-token-metadata = "5"
reqwest = { version = "0.12", default-features = false, features = ["blocking", "json", "rustls-tls"] }
serde = { version = "1", features = ["derive"] }
serde_json = "1"
anyhow = "1"
log = "0.4"
env_logger = "0.11"
dotenv = "0.15"
