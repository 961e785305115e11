[package]
name = "active_request"
version = "0.1.0"
edition = "2021"
publish = false

[dependencies]
iceoryx2-bb-log = "*"
iceoryx2-bb-posix = "*"
iceoryx2-cal = "*"
