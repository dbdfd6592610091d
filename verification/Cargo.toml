[package]
name = "bui_backend"
version = "0.1.0"
edition = "2021"
publish = false

[dependencies]
futures = "=0.3.34"
jsonwebtoken = { version = "=11.1.0", features = ["rust_crypto"] }
cookie = "=0.18.2"
url = "=2.5.8"
conduit-mime-types = "=0.8.0"
uuid = { version = "=1.27.0", features = ["v4"] }
serde = { version = "=1.0.229", features = ["derive"] }
serde_json = "=1.0.151"
hyper = { version = "=0.14.32", features = ["server", "http1", "tcp", "stream"] }
tokio = { version = "=1.53.2", features = ["rt-multi-thread", "macros", "net", "time", "sync"] }
tokio-stream = "=0.1.19"
stream-cancel = "=0.8.2"
parking_lot = "=0.12.5"
qrcodegen = "*"
bytes = "=1.12.1"
walkdir = "=2.5.0"
