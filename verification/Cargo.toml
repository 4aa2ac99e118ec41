[package]
name = "touch_numpad"
version = "0.1.0"
edition = "2021"
publish = false

[dependencies]
async-io = "1"
async-signal = "0.2"
env_logger = "*"
evdev = "0.12"
futures-lite = "1"
i2cdev = "*"
log = "0.4"
nix = { version = "0.27", features = ["fs"] }
regex = "1"
