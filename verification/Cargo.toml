[package]
name = "dragonfox_vpn"
version = "2.0.2"
edition = "2021"
publish = false

[dependencies]
scraper = "0.29"
serde = { version = "1", features = ["derive"] }
serde_json = "1"
ureq = "3"
directories = "6"
log = "0.4"
env_logger = "0.11"
ctrlc = "3"
image = { version = "0.25", default-features = false, features = ["png"] }
tray-icon = "0.22.0"
gtk = "0.18"
notify-rust = { version = "4.14.0", default-features = false, features = ["d"] }
