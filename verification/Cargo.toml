[package]
name = "modbus_rtu"
version = "0.1.0"
edition = "2021"
publish = false

[dependencies]
bytes = "=0.4.12"
futures = "=0.1.31"
log = "0.4"
modbus-core = { version = "=0.2.0", features = ["log"] }
net2 = "=0.2.39"
tokio-codec = "=0.1.2"
tokio-core = "=0.1.18"
tokio-proto = "=0.1.1"
tokio-service = "=0.1.0"
