[package]
name = "boxmgr"
version = "0.1.0"
edition = "2021"
publish = false

[dependencies]
chrono = "*"
serde_json = "*"
futures-util = "*"
nix = { version = "*", features = ["signal", "process"] }
tokio = { version = "*", features = ["full"] }
tokio-tungstenite = "*"
tokio-util = "*"
