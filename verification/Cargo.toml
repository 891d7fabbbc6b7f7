[package]
name = "syswatch"
version = "0.1.0"
edition = "2021"
publish = false

[dependencies]
sysinfo = "0.29"
chrono = "0.4"
whoami = "1.5"
local-ip-address = "0.6"
