[package]
name = "bluez_adapter"
version = "0.1.0"
edition = "2021"
publish = false

[dependencies]
uuid = "*"
dbus = "*"
futures = "*"
tokio = { version = "*", features = ["rt", "sync", "time"] }
