[package]
name = "modbus_server"
version = "0.1.0"
edition = "2021"
publish = false

[dependencies]
rmodbus = "=0.12.2"
tokio = { version = "=1.54.1", features = ["rt-multi-thread", "macros", "net", "io-util"] }
