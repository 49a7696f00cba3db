[package]
name = "dns_checker"
version = "0.1.0"
edition = "2021"
publish = false

[dependencies]
serde_json = "*"
chrono = "*"
log = "*"
reqwest = { version = "*", default-features = false, features = ["blocking", "rustls-tls"] }
trust-dns-resolver = "*"
signal-hook = "*"
simple_logger = "*"
shuteye = "*"
