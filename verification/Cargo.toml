[package]
name = "zermia"
version = "0.1.0"
edition = "2021"
publish = false

[dependencies]
serde = { version = "=1.0.229", features = ["derive"] }
ipc-rs = "=0.4.2"
jni = "=0.19.0"
colored = "=3.1.1"
libc = "=0.2.191"
