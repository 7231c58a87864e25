[package]
name = "pjlink_bridge"
version = "0.1.0"
edition = "2021"
publish = false

[dependencies]
log = "0.4"
mac_address = "1.1"
md5 = "0.7"
rand = "0.8"
