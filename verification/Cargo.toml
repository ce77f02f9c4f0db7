[package]
name = "health_monitoring_lib"
version = "0.1.0"
edition = "2021"
publish = false

[dependencies]
dbus = "0.9"
portable-atomic = "1"
sd-notify = "=0.4.5"
