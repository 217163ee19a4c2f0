[package]
name = "opendeck_k1pro"
version = "0.1.0"
edition = "2021"
publish = false

[dependencies]
anyhow = "=1.0.104"
data-url = "=0.3.2"
image = { version = "=0.25.10", default-features = false, features = ["jpeg"] }
libc = "=0.2.191"
libloading = "=0.8.9"
log = "=0.4.35"
openaction = "=1.1.5"
serde = { version = "=1.0.229", features = ["derive"] }
serde_json = "=1.0.154"
simplelog = "=0.12.2"
tokio = { version = "=1.54.1", features = ["full"] }
tokio-util = { version = "=0.7.20", features = ["rt"] }
