[package]
name = "chronodesk"
version = "0.1.0"
edition = "2021"
publish = false

[dependencies]
chrono = "0.4"
hostname = "0.3"
reqwest = { version = "0.11", default-features = false, features = ["json", "rustls-tls"] }
rusqlite = { version = "0.29", features = ["bundled"] }
serde = { version = "1", features = ["derive"] }
serde_json = "1"
uuid = { version = "1", features = ["v4"] }
