[package]
name = "grapevine"
version = "0.1.0"
edition = "2021"
publish = false

[dependencies]
chrono = "0.4"
dirs = "5"
serde = { version = "1", features = ["derive"] }
serde_json = "1"
crossterm = "0.28"
ratatui = "0.29"
mlua = { version = "0.9", features = ["lua54", "vendored"] }
reqwest = { version = "0.12", default-features = false, features = ["blocking", "rustls-tls"] }
