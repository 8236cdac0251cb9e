[package]
name = "osprey_svc"
version = "0.1.0"
edition = "2021"
publish = false

[dependencies]
anyhow = "=1.0.104"
base64 = "=0.22.1"
clap = { version = "=4.6.7", features = ["derive"] }
ctrlc = "=3.5.2"
hex = "=0.4.3"
if-addrs = "=0.15.0"
mdns-sd = "=0.21.7"
qrcode = { version = "=0.14.1", default-features = false }
serde = { version = "=1.0.229", features = ["derive"] }
serde_json = "=1.0.154"
thiserror = "=2.0.21"
tracing = "=0.1.44"
tracing-subscriber = { version = "=0.3.23", features = ["env-filter"] }
tungstenite = { version = "=0.30.0", features = ["rustls-tls-webpki-roots"] }
ureq = { version = "=3.5.1", features = ["json"] }
uuid = { version = "=1.29.0", features = ["v4", "serde"] }

[dev-dependencies]
tempfile = "=3.27.0"
