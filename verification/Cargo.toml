[package]
name = "wkhtmltopdf"
version = "0.1.0"
edition = "2021"
publish = false

[dependencies]
thread-id = "*"
lazy_static = "1"
log = "0.4"
url = "2"
wkhtmltox-sys = "*"
