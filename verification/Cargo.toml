[package]
name = "rusty_pipe"
version = "0.1.0"
edition = "2021"
publish = false

[dependencies]
base64 = "*"
crossbeam-channel = "*"
clap = "*"
mac_address = "*"
rumqtt = "*"
tun-tap-mac = "*"
