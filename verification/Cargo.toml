[package]
name = "winternitz"
version = "0.1.0"
edition = "2021"

[dependencies]
sha2 = { version = "=0.10.9", features = ["asm"] }
rand = "=0.8.8"
hex = "=0.4.3"
