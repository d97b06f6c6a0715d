[package]
name = "rocker"
version = "0.1.0"
edition = "2021"
publish = false

[dependencies]
byteorder = "=1.5.0"
bytesize = "=1.3.3"
crossbeam-channel = "=0.5.17"
failure = "=0.1.8"
futures-util = "=0.3.34"
log = "=0.4.34"
shiplift = "=0.7.0"
termion = "=1.5.6"
tokio = { version = "=1.54.1", features = ["rt", "rt-multi-thread"] }
tui = { version = "=0.19.0", default-features = false, features = ["termion"] }
tui-logger = "=0.8.3"
