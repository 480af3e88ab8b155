[package]
name = "sds011_exporter"
version = "0.1.0"
edition = "2021"
publish = false

[dependencies]
anyhow = "1"
bytes = "*"
chrono = "0.4"
env_logger = "*"
err-derive = "*"
log = "0.4"
serde_json = "1"
serialport = { version = "*", default-features = false }
structopt = "0.3"
tokio = { version = "1", features = ["macros", "rt-multi-thread"] }
warp = "0.3"
