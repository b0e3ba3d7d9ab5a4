[package]
name = "tls_accept"
version = "0.1.0"
edition = "2021"
publish = false

[dependencies]
rustls = { version = "0.23", default-features = false, features = ["std"] }
tokio = { version = "1", default-features = false }

[dev-dependencies]
rustls = { version = "0.23", default-features = false, features = ["std", "ring"] }
