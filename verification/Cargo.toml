[package]
name = "precip"
version = "0.1.0"
edition = "2021"
publish = false

[dependencies]
chrono = "0.4"
cron = "*"
uuid = "1"
serde = { version = "1", features = ["derive"] }
serde_json = "1"
sysfs_gpio = "*"
