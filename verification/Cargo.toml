[package]
name = "waxosuit_host"
version = "0.1.0"
edition = "2021"
publish = false

[dependencies]
wascap = "=0.5.2"
serde_json = "=1.0.154"
reqwest = { version = "=0.13.5", default-features = false, features = ["blocking", "json"] }
structopt = "=0.2.18"
env_logger = "=0.5.13"
quicli = "=0.4.0"
