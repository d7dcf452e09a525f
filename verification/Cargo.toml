[package]
name = "wemo"
version = "0.1.0"
edition = "2021"
publish = false

[dependencies]
regex = "*"
url = "*"
get_if_addrs = "*"
mio = { version = "*", features = ["os-poll", "net"] }
iron = "*"
urlencoded = "*"
log = "*"
