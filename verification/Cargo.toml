[package]
name = "tasks"
version = "0.2.0"
edition = "2021"
publish = false

[dependencies]
cli-clipboard = "0.4"
keyring = "3"
open = "5"
reqwest = { version = "0.12", default-features = false, features = ["blocking", "rustls-tls"] }
tracing = "0.1"
