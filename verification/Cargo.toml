[package]
name = "lyche"
version = "0.1.0"
edition = "2021"
publish = false

[dependencies]
memflow = "0.2"
memflow-win32 = "0.2"
clap = { version = "4", features = ["cargo"] }
clap-num = "1"
log = "0.4"
simplelog = "0.12"
serde = { version = "1", features = ["derive"] }
serde_json = "1"
config = "0.13"
serialport = { version = "4", default-features = false }
lazy_static = "1"
