[package]
name = "proxy_core"
version = "0.1.0"
edition = "2021"
publish = false

[dependencies]
async-trait = "*"
base64 = "*"
bytes = "*"
http = "*"
rustls = "*"
rustls-pemfile = "*"
tokio = { version = "*", features = ["rt", "macros", "sync", "time", "net", "io-util"] }
toml_edit = "*"
