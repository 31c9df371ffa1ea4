[package]
name = "opds_entry"
version = "0.1.0"
edition = "2021"
publish = false

[dependencies]
xml-rs = "*"
urlencoding = "*"
chrono = "*"
