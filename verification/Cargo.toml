[package]
name = "unipager"
version = "0.1.0"
edition = "2021"
publish = false

[dependencies]
async-std = { version = "=1.13.2", features = ["unstable"] }
bytes = "=1.12.1"
chrono = { version = "=0.4.45", features = ["serde"] }
futures = "=0.3.34"
futures-core = "0.3"
futures-timer = "3"
futures-util = "0.3"
hyper = { version = "=0.14.32", features = ["server", "http1", "tcp"] }
lapin = { version = "=2.5.5", default-features = false }
lazy_static = "1"
libc = "=0.2.191"
log = "=0.4.34"
reqwest = { version = "=0.11.27", default-features = false, features = ["json"] }
serde = { version = "=1.0.229", features = ["derive"] }
serde_json = "1"
serial = "=0.4.0"
sysfs_gpio = "=0.6.2"
tokio = { version = "=1.54.1", features = ["rt-multi-thread", "net", "time", "sync"] }
tokio-amqp = { version = "=2.0.0", default-features = false }
tokio-tungstenite = "=0.20.1"
tungstenite = "=0.20.1"
