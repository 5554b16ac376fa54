[package]
name = "term_bar"
version = "0.1.0"
edition = "2021"
publish = false

[dependencies]
anyhow = "=1.0.104"
chrono = "=0.4.45"
cobs = "=0.3.0"
crossterm = { version = "=0.29.0", features = ["event-stream", "serde"] }
flexi_logger = "=0.31.10"
futures = "=0.3.34"
hyprland = "=0.3.13"
image = { version = "=0.25.10", default-features = false, features = ["png", "jpeg"] }
log = "=0.4.34"
postcard = { version = "=1.1.3", features = ["use-std"] }
serde = { version = "=1.0.229", features = ["derive"] }
serde_json = "=1.0.154"
tempfile = "=3.27.0"
tokio = { version = "=1.54.1", features = ["full"] }
tokio-stream = { version = "=0.1.19", features = ["sync"] }
tokio-util = { version = "=0.7.20", features = ["rt", "time"] }
zbus = { version = "=5.19.0", default-features = false, features = ["tokio"] }
