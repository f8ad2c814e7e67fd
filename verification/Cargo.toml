[package]
name = "registration_relay"
version = "0.1.0"
edition = "2021"
publish = false

[dependencies]
backon = "0.4"
base64 = "0.22"
futures = "0.3"
libc = "0.2"
nix = { version = "0.27", features = ["feature"] }
plist = "1"
reqwest = { version = "0.11", default-features = false, features = ["rustls-tls"] }
serde = { version = "1", features = ["derive"] }
serde_json = "1"
thiserror = "1"
tokio = { version = "1", features = ["full"] }
tokio-tungstenite = { version = "0.21", features = ["rustls-tls-webpki-roots"] }
