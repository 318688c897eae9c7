[package]
name = "hostcore"
version = "0.1.0"
edition = "2021"
publish = false

[dependencies]
machine-uid = "*"
reqwest = { version = "*", default-features = false }
sysinfo = "*"
zbus = "*"
zip = "*"
