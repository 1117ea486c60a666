[package]
name = "marinade_finance"
version = "0.1.0"
edition = "2021"
publish = false

[dependencies]
anchor-lang = "0.27"
anchor-spl = { version = "0.27", features = ["stake"] }
spl-token = { version = "3.5", features = ["no-entrypoint"] }
borsh = "0.9"
bincode = "1"
