[package]
name = "mango"
version = "0.1.0"
edition = "2021"
publish = false

[dependencies]
bincode = "1"
fixed = { version = "1", features = ["serde"] }
num_enum = "0.5"
serde = { version = "1", features = ["derive"] }
serum_dex = "*"
solana-program = "1"
spl-token = { version = "3", features = ["no-entrypoint"] }

[dev-dependencies]
bytemuck = "1"
