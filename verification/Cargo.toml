[package]
name = "deskmsg"
version = "0.1.0"
edition = "2021"
publish = false

[dependencies]
uuid = "=1.29.1"
serde = { version = "=1.0.229", features = ["derive"] }
serde_json = "=1.0.154"
anyhow = "=1.0.104"
log = "=0.4.35"
once_cell = "=1.21.4"
tokio = { version = "=1.54.1", features = ["rt-multi-thread", "macros", "net", "time", "fs", "sync"] }
futures = "=0.3.34"
async-trait = "=0.1.92"
ahash = "=0.8.12"
mdns-sd = "=0.21.7"
salvo = { version = "=1.1.0", default-features = false, features = ["server", "http1"] }
rmqtt = "=0.24.0"
rmqtt-sys-topic = "=0.24.0"
btleplug = "=0.11.8"
napi = "=3.16.1"
napi-derive = "=3.7.0"
