[package]
name = "ic_http_auth"
version = "0.1.0"
edition = "2021"
publish = false

[dependencies]
anyhow = "1"
axum = "*"
base64 = "=0.22.1"
bhttp = "*"
candid = "=0.10.39"
clap = { version = "4", features = ["derive"] }
http-body-util = "*"
ic-canister-sig-creation = "=1.3.1"
ic-cdk = "*"
ic-http-certification = "=4.0.0"
ic-signature-verification = "=0.3.0"
p256 = { version = "=0.13.2", features = ["ecdsa", "pkcs8"] }
pocket-ic = "*"
serde = { version = "=1.0.229", features = ["derive"] }
serde_json = "=1.0.154"
thiserror = "=2.0.21"
tokio = { version = "1", features = ["full"] }
tokio-util = "*"
tower = "*"
tracing-core = "*"
tracing-subscriber = "*"

[dev-dependencies]
ic-certification = "=3.2.0"
ic-verify-bls-signature = { version = "=0.6.0", default-features = false, features = ["alloc"] }
serde_cbor = "=0.11.2"
sha2 = "=0.10.9"
