[package]
name = "net_client"
version = "0.1.0"
edition = "2021"
publish = false

[dependencies]
renet = "0.0.15"
bincode = "1.3"
serde = { version = "1", features = ["derive"] }
