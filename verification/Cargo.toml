[package]
name = "compass"
version = "0.1.0"
edition = "2021"
publish = false

[dependencies]
bincode = "=1.3.3"
chrono = "=0.4.45"
csv = "=1.4.0"
env_logger = "=0.11.11"
flate2 = "=1.1.10"
kdam = "=0.6.4"
log = "=0.4.34"
rand = "=0.10.3"
serde = { version = "=1.0.229", features = ["derive"] }
serde_json = "=1.0.151"
smartcore = { version = "=0.6.15", features = ["serde"] }
uom = "=0.38.0"
