[package]
name = "lcnc_web"
version = "0.1.0"
edition = "2021"
publish = false

[dependencies]
anyhow = "=1.0.104"
base64 = "=0.13.1"
bytes = "=1.12.1"
clap = { version = "=4.6.7", features = ["derive"] }
derive_more = "=0.99.20"
futures = "=0.3.34"
headers = "=0.3.9"
hyper = { version = "=0.14.32", features = ["full"] }
log = "=0.4.35"
log4rs = "=1.4.0"
nalgebra = "=0.32.6"
pin-utils = "=0.1.1"
regex = "=1.13.1"
routerify = "=3.0.0"
serde = { version = "=1.0.229", features = ["derive"] }
serde_json = "=1.0.154"
sha1 = "=0.10.7"
thrussh = "=0.33.5"
thrussh-keys = "=0.21.0"
tokio = { version = "=1.54.1", features = ["full"] }
tokio-tungstenite = "=0.20.1"
tokio-util = { version = "=0.7.20", features = ["codec"] }
