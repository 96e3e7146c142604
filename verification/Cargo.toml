[package]
name = "icmp_probe"
version = "0.1.0"
edition = "2021"
publish = false

[dependencies]
pnet_packet = "=0.35.0"
rand = "=0.10.3"
socket2 = { version = "=0.6.5", features = ["all"] }
