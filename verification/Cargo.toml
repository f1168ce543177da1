[package]
name = "utah-core"
version = "0.1.0"
edition = "2021"
publish = false

[dependencies]
serde = { version = "1", features = ["derive"] }
serde_json = "1"
rusqlite = "0.31"
keyring = "3"
arboard = { version = "3", default-features = false }
