[package]
name = "usb_device_xous"
version = "0.1.0"
edition = "2021"
publish = false

[dependencies]
embedded-time = "0.12"
log = "=0.4.34"
xous-semver = "=0.1.6"
