[package]
name = "transfer_hook"
version = "0.1.0"
edition = "2021"
publish = false

[dependencies]
anchor-lang = "*"
anchor-spl = "*"
spl-tlv-account-resolution = "*"
spl-transfer-hook-interface = "*"
