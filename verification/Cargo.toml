[package]
name = "llm_relay"
version = "0.1.0"
edition = "2021"
publish = false

[dependencies]
serde_json = "*"
serde = { version = "*", features = ["derive"] }
reqwest = { version = "*", default-features = false, features = ["json", "rustls-tls"] }
actix-web = "*"
actix-cors = "*"
dotenvy = "*"
