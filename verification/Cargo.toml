[package]
name = "inkprint-core"
version = "0.1.0"
edition = "2021"
publish = false

[dependencies]
dashmap = "6"
tokio = { version = "1", features = ["rt-multi-thread", "net", "sync", "time", "macros"] }
hyper = { version = "1", features = ["server", "http1"] }
hyper-util = { version = "0.1", features = ["tokio"] }
http-body-util = "0.1"
bytes = "1"
if-addrs = "*"
libc = "0.2"
mdns-sd = "*"
once_cell = "1"
thiserror = "*"
tracing = "0.1"
log = "0.4"
