[package]
name = "aiosc"
version = "0.1.0"
edition = "2021"
publish = false

[dependencies]
colored = "*"
dirs = "*"
hostname = "*"
json_comments = "*"
nix = { version = "=0.29.0", features = ["poll", "term", "fs", "process", "signal"] }
os_info = "*"
ptyprocess = "=0.4.1"
reqwest = { version = "*", default-features = false, features = ["blocking", "json", "rustls-tls"] }
rustyline = "*"
serde = { version = "*", features = ["derive"] }
serde_json = "*"
