[package]
name = "engineio_server"
version = "0.1.0"
edition = "2021"
publish = false

[dependencies]
futures = "0.3"
http = "0.2"
http-body = "0.4"
hyper = { version = "0.14", default-features = false, features = ["http1", "server", "stream"] }
tokio = { version = "1", default-features = false, features = ["rt", "sync"] }
tokio-tungstenite = { version = "0.18", default-features = false, features = ["handshake"] }
