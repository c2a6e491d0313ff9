[package]
name = "solana-trader-quic-client-rust"
version = "0.1.0"
edition = "2021"
publish = false

[dependencies]
base64 = "0.22"
quinn = { version = "0.11", default-features = false, features = ["runtime-tokio", "rustls-ring"] }
rustls = { version = "0.23", default-features = false, features = ["ring", "std"] }
rustls-pemfile = "2"
thiserror = "2"
tokio = { version = "1", features = ["macros", "rt", "time"] }
webpki-roots = "1"
