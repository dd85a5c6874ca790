[package]
name = "emoji_mashup"
version = "0.1.0"
edition = "2021"
publish = false

[dependencies]
actix-web = "4"
reqwest = { version = "0.12", default-features = false, features = ["rustls-tls"] }
rusqlite = { version = "*", features = ["bundled"] }
serde_json = "1"
tokio = { version = "1", features = ["rt-multi-thread", "macros"] }
