[package]
name = "ina3221_dd"
version = "0.1.0"
edition = "2021"
publish = false

[dependencies]
device-driver = { version = "1", default-features = false }
embedded-hal = "1.0.0"
embedded-hal-async = "1.0.0"
thiserror = { version = "2", default-features = false }
