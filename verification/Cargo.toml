[package]
name = "webauthn_demo"
version = "0.1.0"
edition = "2021"
publish = false

[dependencies]
webauthn-rs = { version = "0.5", features = ["danger-allow-state-serialisation"] }
ring = "0.17"
p256 = "0.13"
uuid = { version = "1", features = ["v4"] }
url = "2"
axum = "0.8"
tokio = { version = "1", features = ["rt-multi-thread", "net", "macros"] }
tower-sessions = "0.14"
serde = { version = "1", features = ["derive"] }
serde_json = "1"
