[package]
name = "stream_dispatch"
version = "0.1.0"
edition = "2021"
publish = false

[dependencies]
anyhow = "1"
futures = "0.3"
serde = { version = "1", features = ["derive"] }
serde_yaml = "0.9"
solana-commitment-config = "2"
solana-hash = "2"
solana-instruction = "2"
solana-keypair = "2"
solana-native-token = "2"
solana-pubkey = "2"
solana-rpc-client = "2.3"
solana-signer = "2"
solana-system-interface = { version = "1", features = ["bincode"] }
solana-transaction = { version = "2", features = ["bincode", "verify"] }
tokio = { version = "1", features = ["macros", "rt-multi-thread", "time"] }
yellowstone-grpc-client = "13"
yellowstone-grpc-proto = { version = "12", default-features = false }
