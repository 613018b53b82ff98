[package]
name = "car_remote"
version = "0.1.0"
edition = "2021"
publish = false

[dependencies]
jose = { version = "=0.0.2", features = ["crypto-rustcrypto", "std"] }
serde = { version = "=1.0.229", features = ["derive"] }
serde_json = "=1.0.154"
uuid = "=1.29.0"
log = "=0.4.34"
tokio = { version = "=1.54.1", features = ["sync", "time", "fs", "io-util", "rt", "macros"] }
color-eyre = "=0.6.5"
futures-util = "=0.3.34"
btleplug = "=0.11.8"
jni = "=0.19.0"
android_logger = "=0.15.1"
jni-utils = "=0.1.1"
