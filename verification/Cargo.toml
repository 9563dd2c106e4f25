[package]
name = "aw_watcher_window"
version = "0.1.0"
edition = "2021"
publish = false

[dependencies]
regex = "=1.13.1"
chrono = "=0.4.45"
serde_json = "=1.0.151"
clap = { version = "=4.6.7", features = ["derive"] }
gethostname = "=1.1.0"
winsafe = { version = "=0.0.29", features = ["user"] }
aw-client-rust = "=0.1.0"
