[package]
name = "noema"
version = "0.1.0"
edition = "2021"
publish = false

[dependencies]
base64 = "=0.22.1"
url = "=2.5.8"
uuid = { version = "=1.29.0", features = ["v4"] }
html2md = "=0.2.17"
flate2 = "=1.1.10"
image = { version = "=0.25.10", default-features = false, features = ["png"] }
lopdf = "=0.46.0"
pdf-extract = "=0.12.1"
serde = { version = "=1.0.229", features = ["derive"] }
serde_json = "=1.0.154"
chrono = "=0.4.45"
tokio = { version = "1", features = ["rt-multi-thread", "macros", "net", "io-util", "sync", "time", "fs"] }
reqwest = { version = "0.12", default-features = false, features = ["json", "rustls-tls", "stream"] }
anyhow = "1"
tracing = "0.1"
tracing-subscriber = { version = "0.3", features = ["fmt", "env-filter"] }
tracing-appender = "0.2"
futures-util = "0.3"
tokio-tungstenite = "*"
hyper = { version = "1", features = ["server", "http1"] }
hyper-util = { version = "0.1", features = ["tokio"] }
http-body-util = "0.1"
tower-service = "0.3"
rmcp = { version = "*", features = ["server", "transport-streamable-http-server"] }
dirs = "*"
cpal = "*"
pdfium-render = "*"
