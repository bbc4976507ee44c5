[package]
name = "proxmox_client"
version = "0.1.0"
edition = "2021"
publish = false

[dependencies]
http = "1"
openssl = "0.10"
serde = { version = "1", features = ["derive"] }
serde_json = { version = "1", features = ["preserve_order"] }
