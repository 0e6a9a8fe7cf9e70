[package]
name = "stake_for_fee"
version = "0.1.0"
edition = "2021"
publish = false

[dependencies]
borsh = { version = "=1.8.1", features = ["derive"] }
solana-program = "=5.1.0"
thiserror = "=2.0.21"
num-derive = "=0.5.1"
num-traits = "=0.2.19"
bytemuck = { version = "=1.25.2", features = ["derive"] }
anchor-lang = "=1.2.1"
anchor-spl = "=1.2.1"
