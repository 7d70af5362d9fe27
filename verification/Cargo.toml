[package]
name = "virtuoso"
version = "0.1.0"
edition = "2021"
publish = false

[dependencies]
gpio-cdev = "0.6"
serial = "0.4"
slint = { version = "1", default-features = false, features = ["std", "compat-1-2"] }
