[package]
name = "openalex_adapter"
version = "0.1.0"
edition = "2021"
publish = false

[dependencies]
lazy_static = "*"
reqwest = { version = "*", default-features = false, features = ["blocking", "json", "rustls-tls"] }
serde = { version = "*", features = ["derive"] }
trustfall_core = "*"
