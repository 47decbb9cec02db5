[package]
name = "dnet"
version = "0.1.0"
edition = "2021"
publish = false

[dependencies]
serde = { version = "=1.0.229", features = ["derive"] }
serde_json = "=1.0.154"
config = "=0.10.1"
clap = "=2.34.0"
chrono = "=0.4.45"
log = "=0.4.35"
duct = "=0.13.7"
rand = "0.7"
