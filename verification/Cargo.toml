[package]
name = "auth_core"
version = "0.1.0"
edition = "2021"
publish = false

[dependencies]
argon2 = "0.5"
email_address = "0.2"
rand = "0.8"
scc = "2"
uuid = { version = "1", features = ["v4"] }
