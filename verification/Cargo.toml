[package]
name = "scanopy"
version = "0.1.0"
edition = "2021"
publish = false

[dependencies]
base64ct = { version = "=1.8.3", features = ["alloc"] }
chrono = "=0.4.45"
chrono-tz = "0.10"
csv = "=1.4.0"
idna = "=1.1.0"
mailchecker = "=6.0.21"
psl = "=2.1.246"
semver = "=1.0.28"
url = "=2.5.8"
serde = { version = "=1.0.229", features = ["derive"] }
serde_json = "=1.0.154"
uuid = { version = "=1.29.0", features = ["v4"] }
tracing = "=0.1.44"
tokio = { version = "=1.54.1", features = ["rt", "time", "net", "macros"] }
hickory-resolver = "=0.26.3"
reqwest = { version = "=0.12.28", default-features = false }
email_address = "=0.2.9"

[dev-dependencies]
urlencoding = "=2.1.3"
