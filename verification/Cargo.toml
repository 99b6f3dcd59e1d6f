[package]
name = "device_pairing"
version = "0.1.0"
edition = "2021"
publish = false

[dependencies]
idevice = { version = "=0.1.68", features = ["usbmuxd", "afc", "house_arrest", "amfi", "pair"] }
plist = "=1.10.3"
uuid = { version = "=1.29.0", features = ["v4"] }
log = "=0.4.34"
env_logger = "=0.11.11"
