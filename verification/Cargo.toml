[package]
name = "launcher_core"
version = "0.1.0"
edition = "2021"
publish = false

[dependencies]
base64 = "0.13"
hc_seed_bundle = "=0.7.1"
sodoken = "=0.1.0"
lair_keystore_api = "=0.4.7"
tokio = { version = "1", features = ["rt"] }
serde_json = "1"
pinentry = "*"
secrecy = "*"

[dev-dependencies]
ed25519-dalek = "2"
tempfile = "3"
