[package]
name = "speedwatch"
version = "0.1.0"
edition = "2021"
publish = false

[dependencies]
base64 = "=0.23.1"
url = "=2.5.8"
prometheus_remote_write = "=0.2.1"
reqwest = { version = "=0.12.28", default-features = false, features = ["blocking"] }
cfspeedtest = "=2.2.2"
clap = { version = "=4.6.7", features = ["derive", "env"] }
hostname = "=0.4.2"
tracing = "=0.1.44"
tracing-subscriber = { version = "=0.3.23", features = ["env-filter"] }

[dev-dependencies]
prost = "=0.12.6"
