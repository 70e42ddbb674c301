[package]
name = "devpod_desktop"
version = "0.1.0"
edition = "2021"
publish = false

[dependencies]
strip-ansi-escapes = "*"
tokio = { version = "1", features = ["rt-multi-thread", "macros", "net", "io-util", "time", "process", "sync"] }
hyper = { version = "1", features = ["client", "server", "http1"] }
http = "1"
http-body-util = "0.1"
bytes = "1"
axum = { version = "*", features = ["ws"] }
tower-http = { version = "*", features = ["cors"] }
serde = { version = "1", features = ["derive"] }
serde_json = "1"
dirs = "*"
nix = { version = "*", features = ["signal"] }
anyhow = "1"
