[package]
name = "konsoleat"
version = "0.1.0"
edition = "2021"
publish = false

[dependencies]
askama = "*"
clap = { version = "4", features = ["derive"] }
procfs = "*"
same-file = "1"
snafu = "*"
tempfile = "3"
zbus = "5"
zbus_xml = "5"
