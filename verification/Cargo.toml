[package]
name = "dmtrd"
version = "0.1.0"
edition = "2021"
publish = false

[dependencies]
argon2 = "0.5"
bech32 = "0.9"
hex = "0.4"
pasetors = { version = "0.6", features = ["v2"] }
tokio = { version = "1", features = ["rt-multi-thread", "macros", "sync", "time"] }
uuid = { version = "1", features = ["v4"] }
