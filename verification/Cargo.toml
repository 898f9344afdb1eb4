[package]
name = "geyser_selector"
version = "0.1.0"
edition = "2021"
publish = false

[dependencies]
solana-program = "*"
serde = { version = "*", features = ["derive"] }
serde_json = "*"
rmp-serde = "*"
hashbrown = "*"
thiserror = "*"
anyhow = "*"
lapin = "*"
tokio = { version = "*", features = ["rt-multi-thread"] }

[dev-dependencies]
spl-token = "*"
