[package]
name = "shadowdhcp"
version = "0.1.0"
edition = "2021"
publish = false

[dependencies]
dhcproto = "=0.13.0"
advmac = "=1.0.3"
ipnet = "=2.12.2"
serde = { version = "=1.0.229", features = ["derive"] }
serde_json = "=1.0.151"
arc-swap = "=1.9.2"
pico-args = "=0.5.0"
signal-hook = "=0.4.5"
tracing = "=0.1.44"
tracing-subscriber = "=0.3.23"
