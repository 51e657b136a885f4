[package]
name = "mac_controller"
version = "0.1.0"
edition = "2021"
publish = false

[dependencies]
actix-multipart = "=0.7.2"
actix-web = { version = "=4.18.1", default-features = false, features = ["macros"] }
chrono = "=0.4.45"
cpal = "=0.16.0"
dirs = "=7.0.0"
env_logger = { version = "=0.11.11", default-features = false }
futures-util = "=0.3.34"
hound = "=3.5.1"
local-ip-address = "=0.6.13"
log = "=0.4.34"
media-remote = "*"
regex = "=1.13.1"
rodio = { version = "=0.21.1", default-features = false }
serde = { version = "1", features = ["derive"] }
serde_json = "=1.0.154"
tokio = { version = "=1.54.1", features = ["sync"] }
zeroconf = "*"
