[package]
name = "audio"
version = "0.1.0"
edition = "2021"
publish = false

[dependencies]
thiserror = "=2.0.21"
serde = { version = "=1.0.229", features = ["derive"] }
serde_json = "=1.0.154"
clap = { version = "=4.6.7", features = ["derive"] }
log = "=0.4.35"
env_logger = "=0.11.11"
tokio = { version = "=1.54.1", features = ["rt-multi-thread", "macros", "sync", "time", "net"] }
i2cdev = "=0.6.2"
crossbeam = "=0.8.5"
ctrlc = "=3.5.2"
ringbuf = "=0.4.8"
cpal = "=0.15.3"
chrono = "=0.4.45"
tokio-util = "=0.7.20"
url = "=2.5.8"
tokio-tungstenite = "=0.30.0"
futures-util = "=0.3.34"
libc = "=0.2.191"
axum = "=0.8.9"
tower-http = { version = "=0.6.11", features = ["cors"] }
base64 = "0.22"
