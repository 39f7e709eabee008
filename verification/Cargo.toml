[package]
name = "uklient"
version = "0.1.0"
edition = "2021"
publish = false

[dependencies]
clap = { version = "=4.6.7", features = ["derive"] }
daedalus = "=0.2.3"
ferinth = "=2.13.1"
fs_extra = "=1.3.0"
indicatif = "=0.18.6"
java-locator = "=0.1.9"
once_cell = "=1.21.4"
reqwest = { version = "=0.12.28", default-features = false, features = ["rustls-tls", "json"] }
serde = { version = "=1.0.229", features = ["derive"] }
serde_json = "=1.0.151"
thiserror = "=1.0.69"
tokio = { version = "=1.53.2", features = ["rt-multi-thread", "macros", "sync", "fs"] }
tracing = "=0.1.44"
tracing-subscriber = "=0.3.23"
url = "=2.5.8"
zip = "*"
