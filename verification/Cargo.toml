[package]
name = "endpoint_control"
version = "0.1.0"
edition = "2021"
publish = false

[dependencies]
anyhow = "1"
base64 = "0.22"
clap = { version = "4", features = ["derive"] }
jsonwebtoken = "9"
nix = { version = "0.30", default-features = false, features = ["signal", "process"] }
pem = "3"
reqwest = { version = "0.12", default-features = false, features = ["json"] }
scopeguard = "1"
serde = { version = "1", features = ["derive"] }
serde_json = "1"
sha2 = "0.10"
spki = "0.7"
tokio = { version = "1", features = ["time", "rt"] }
tracing = "0.1"
