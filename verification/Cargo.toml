[package]
name = "hue_observer"
version = "0.1.0"
edition = "2021"
publish = false

[dependencies]
chrono = { version = "*", default-features = false, features = ["std"] }
reqwest = { version = "*", default-features = false, features = ["json", "gzip", "rustls-tls"] }
serde = "*"
serde_json = "*"
thiserror = "*"
tokio = { version = "*", features = ["macros", "rt-multi-thread"] }
