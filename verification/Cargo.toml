[package]
name = "nue"
version = "0.1.0"
edition = "2021"
publish = false

[dependencies]
chacha20poly1305 = "=0.11.0"
getrandom = "=0.3.4"
chrono = { version = "=0.4.45", default-features = false, features = ["std", "serde"] }
serde = { version = "=1.0.229", features = ["derive"] }
heed = "=0.22.1"
rusqlite = { version = "=0.41.1", features = ["bundled"] }
nfc1 = "=0.7.1"
colored = "=3.1.1"
inquire = "=0.9.4"
smol = "=2.0.2"
