[package]
name = "gateway"
version = "0.1.0"
edition = "2021"
publish = false

[dependencies]
rusqlite = { version = "*", features = ["bundled", "backup"] }
zstd = "*"
chrono = "*"
chrono-tz = "*"
sha2 = "*"
hex = "*"
bytebuffer = "*"
serde = { version = "*", features = ["derive"] }
serde_yaml = "*"
serde_json = "*"
clap = { version = "*", features = ["derive"] }
log = "*"
log4rs = "*"
job_scheduler = "*"
serialport = "*"
paho-mqtt = "*"
libmodbus-rs = "*"
