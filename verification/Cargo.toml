[package]
name = "cortex_dispatcher"
version = "0.1.0"
edition = "2021"
publish = false

[dependencies]
chrono = { version = "0.4", default-features = false, features = ["clock"] }
clap = { version = "4", features = ["cargo"] }
config = { version = "*", default-features = false, features = ["yaml"] }
crossbeam-channel = "*"
env_logger = "*"
futures = "*"
inotify = "*"
lapin = "*"
lazy_static = "*"
log = "*"
postgres = "*"
prometheus = { version = "*", features = ["push"] }
regex = "1"
serde = { version = "1", features = ["derive"] }
serde_json = "1"
serde_yaml = "*"
signal-hook = "*"
ssh2 = "*"
tokio = { version = "1", features = ["sync", "rt", "net", "time"] }
