[package]
name = "student_intro"
version = "0.1.0"
edition = "2021"
publish = false

[dependencies]
solana-program = "=1.18.26"
spl-token = "=4.0.3"
spl-associated-token-account = "=3.0.4"

[dev-dependencies]
borsh = "=1.8.1"
