[package]
name = "plane_system"
version = "0.1.0"
edition = "2021"
publish = false

[dependencies]
crc-any = "=2.5.1"
mavlink = { version = "=0.10.14", default-features = false, features = ["std", "ardupilotmega"] }
clap = { version = "=3.2.25", features = ["derive"] }
serde = { version = "=1.0.229", features = ["derive"] }
serde_json = "=1.0.154"
anyhow = "=1.0.104"
chrono = "=0.4.45"
geo = "0.26"
