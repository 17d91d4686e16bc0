[package]
name = "chrome_remote_interface"
version = "0.1.0"
edition = "2021"
publish = false

[dependencies]
heck = "0.3"
proc-macro2 = "1"
serde = { version = "1", features = ["derive"] }
serde_json = "1"
toml = "0.5"
tokio = { version = "1", features = ["process", "fs", "net", "rt", "macros", "io-util", "sync", "time"] }
futures = "0.3"
tokio-tungstenite = "0.14"
url = "2"
which = "4"
dirs = "3"
tempfile = "3"
thiserror = "1"
log = "0.4"
nix = "0.20"
tokio-pipe = "*"
anyhow = "1"
