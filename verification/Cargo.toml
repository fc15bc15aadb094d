[package]
name = "tomoon"
version = "0.1.0"
edition = "2021"
publish = false

[dependencies]
rand = "=0.8.8"
regex = "=1.13.1"
urlencoding = "=2.1.3"
serde = { version = "=1.0.229", features = ["derive"] }
serde_json = "=1.0.154"
serde_yaml = "=0.9.34"
log = "=0.4.35"
simplelog = "=0.12.2"
sysinfo = "=0.29.11"
minreq = "=2.14.1"
tokio = { version = "=1.54.1", features = ["full"] }
actix-web = "=4.18.1"
actix-cors = "=0.7.2"
actix-files = "=0.7.3"
local-ip-address = "=0.6.13"
usdpl-back = "=0.10.1"
