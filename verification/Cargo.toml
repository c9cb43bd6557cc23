[package]
name = "rust_tls_client"
version = "0.1.0"
edition = "2021"
publish = false

[dependencies]
uuid = { version = "*", features = ["v4"] }
libloading = "*"
reqwest = { version = "*", default-features = false, features = ["blocking", "rustls-tls"] }
