[package]
name = "libdav"
version = "0.1.0"
edition = "2021"
publish = false

[dependencies]
roxmltree = "=0.20.0"
base64 = "=0.22.1"
http = "=0.2.12"
hyper = { version = "=0.14.32", features = ["client", "http1", "tcp"] }
hyper-rustls = "=0.24.2"
tokio = { version = "=1.53.2", features = ["rt", "macros"] }
domain = { version = "=0.9.3", features = ["resolv"] }
chrono = "=0.4.45"
icalendar = "=0.16.17"
inquire = { version = "=0.7.5", features = ["date"] }
config = "=0.14.1"
dirs = "=5.0.1"
