[package]
name = "conncore"
version = "0.1.0"
edition = "2021"
publish = false

[dependencies]
http = "*"
native-tls = "*"
socket2 = "*"
