[package]
name = "spaces_desktop"
version = "0.1.0"
edition = "2021"
publish = false

[dependencies]
clap = { version = "=4.6.7", features = ["derive", "env"] }
hex = "=0.4.3"
jsonrpsee = { version = "=0.22.5", features = ["http-client"] }
rustc-hash = "=2.1.3"
spaces_client = "=0.5.0"
spaces_protocol = "=0.5.0"
spaces_wallet = "=0.5.0"
