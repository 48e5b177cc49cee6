[package]
name = "stellarlend"
version = "0.1.0"
edition = "2021"
publish = false

[dependencies]
soroban-sdk = "*"
serde = { version = "1", features = ["derive"] }

[dev-dependencies]
soroban-sdk = { version = "*", features = ["testutils"] }
