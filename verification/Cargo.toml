[package]
name = "spiffe_client"
version = "0.1.0"
edition = "2021"
publish = false

[dependencies]
anyhow = "1"
base64 = "0.22"
chrono = { version = "0.4", features = ["serde"] }
clap = { version = "4", features = ["derive"] }
der-parser = "*"
jsonwebtoken = "9"
p256 = "0.13"
parking_lot = "0.12"
pem = "3"
prost = "0.13"
rcgen = "0.12"
rustls = { version = "0.23", default-features = false, features = ["logging", "ring", "std", "tls12"] }
rustls-pki-types = "1"
serde = { version = "1", features = ["derive"] }
serde_json = "1"
thiserror = "1"
tokio = { version = "1", features = ["full"] }
tokio-rustls = { version = "0.26", default-features = false, features = ["logging", "ring", "tls12"] }
tonic = { version = "0.12", default-features = false, features = ["channel", "codegen", "prost", "tls"] }
tracing = "0.1"
tracing-subscriber = { version = "0.3", features = ["env-filter"] }
url = "2"
x509-parser = "*"
