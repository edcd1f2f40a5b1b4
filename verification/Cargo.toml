[package]
name = "monoio"
version = "0.1.0"
edition = "2021"
publish = false

[dependencies]
flume = { version = "0.11", default-features = false }
io-uring = "0.6"
libc = "0.2"
mio = { version = "0.8", features = ["os-poll", "os-ext"] }
rustc-hash = "2"
