[package]
name = "bluez_monitor"
version = "0.1.0"
edition = "2021"
publish = false

[dependencies]
uuid = { version = "1", features = ["v4"] }
tokio = { version = "1", features = ["sync", "rt"] }
dbus = { version = "0.9", features = ["futures", "vendored"] }
dbus-crossroads = "0.5"
futures = "0.3"
log = "0.4"
