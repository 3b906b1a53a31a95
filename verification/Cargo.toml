[package]
name = "noap_server"
version = "0.1.0"
edition = "2021"
publish = false

[dependencies]
anyhow = "=1.0.104"
axum = "=0.8.9"
base64 = "=0.22.1"
bcrypt = "=0.17.1"
bson = { version = "=2.15.0", features = ["chrono-0_4"] }
chrono = { version = "=0.4.45", features = ["serde"] }
dotenvy = "=0.15.7"
futures = "=0.3.34"
http = "=0.2.12"
image = { version = "=0.25.10", default-features = false, features = ["png"] }
jsonwebtoken = { version = "=9.3.1", default-features = false }
lettre = { version = "=0.11.23", default-features = false, features = ["builder", "smtp-transport", "tokio1", "tokio1-rustls-tls"] }
mongodb = { version = "=3.9.1", default-features = false, features = ["compat-3-0-0", "rustls-tls"] }
qrcode = { version = "=0.14.1", default-features = false, features = ["image"] }
rand = "=0.8.8"
reqwest = { version = "=0.12.28", default-features = false, features = ["json", "rustls-tls"] }
serde = { version = "=1.0.229", features = ["derive"] }
serde_json = { version = "=1.0.154", features = ["preserve_order"] }
tokio = { version = "=1.54.1", features = ["macros", "net", "rt-multi-thread", "sync", "time"] }
totp-rs = { version = "=5.7.2", features = ["otpauth", "gen_secret"] }
tower-http = { version = "=0.6.11", features = ["cors"] }
tracing = "=0.1.44"
tracing-subscriber = { version = "=0.3.23", features = ["env-filter"] }
uuid = { version = "=1.29.0", features = ["v5"] }
web-push = { version = "=0.11.0", default-features = false }
webauthn-rs = { version = "=0.5.5", features = ["conditional-ui", "danger-allow-state-serialisation"] }
webauthn-rs-proto = "=0.5.5"

[dev-dependencies]
openssl = "=0.10.82"
serde_cbor_2 = "=0.13.0"
