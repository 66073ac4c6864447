[package]
name = "corsair-void"
version = "0.1.0"
edition = "2021"
publish = false

[dependencies]
clap = { version = "=4.6.7", features = ["derive"] }
dirs = "=5.0.1"
env_logger = "=0.11.11"
hidapi = { version = "=2.6.7", default-features = false, features = ["linux-native-basic-udev"] }
libpulse-binding = "=2.30.1"
log = "=0.4.35"
rodio = { version = "=0.17.3", default-features = false }
serde = { version = "=1.0.229", features = ["derive"] }
toml = "=0.8.2"
tray-icon = "=0.17.0"
winreg = "=0.52.0"
