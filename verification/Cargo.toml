[package]
name = "newsletter"
version = "0.1.0"
edition = "2021"
publish = false

[dependencies]
reqwest = { version = "0.11", default-features = false, features = ["json", "rustls-tls"] }
secrecy = "0.8"
serde = "1"
tokio = { version = "1", features = ["macros", "rt-multi-thread"] }
validator = "0.16"

[dev-dependencies]
fake = "2.9"
rand = "0.8"
