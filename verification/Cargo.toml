[package]
name = "tower-dtls"
version = "0.1.0"
edition = "2021"
publish = false

[dependencies]
bincode = "=2.0.0-rc.3"
bytes = "=1.12.1"
chrono = "0.4"
env_logger = "0.11"
futures = "0.3"
futures-sink = "0.3"
futures-util = { version = "0.3", features = ["sink"] }
log = "0.4"
tokio = { version = "1", features = ["macros", "rt-multi-thread", "net", "sync", "time"] }
tokio-tower = "0.6"
tokio-util = { version = "0.7", features = ["codec", "net"] }
tower = { version = "0.4", features = ["util"] }
webrtc-dtls = "=0.12.0"
webrtc-util = "=0.11.0"
