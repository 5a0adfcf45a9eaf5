[package]
name = "proxy_metrics"
version = "0.1.0"
edition = "2021"
publish = false

[dependencies]
http = "=1.5.0"
tower-retry = "=0.3.0"
