[package]
name = "ws_script"
version = "0.1.0"
edition = "2021"
publish = false

[dependencies]
json = "0.12"
regex = "1"
glob = "0.3"
url = "2"
tungstenite = "0.19"
