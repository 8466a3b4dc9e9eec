[package]
name = "safedrive"
version = "0.1.0"
edition = "2021"
publish = false

[dependencies]
reqwest = { version = "=0.12.28", default-features = false, features = ["blocking", "json", "rustls-tls"] }
rustc-serialize = "=0.3.25"
serde = { version = "=1.0.229", features = ["derive"] }
serde_json = "=1.0.154"
tar = "=0.4.46"
walkdir = "=2.5.0"
parking_lot_mpsc = "=0.1.5"
