[package]
name = "gmsv_serverstat"
version = "0.1.0"
edition = "2021"
publish = false

[dependencies]
gmod = { version = "=16.0.2", default-features = false }
crossbeam = "=0.8.5"
metrics = "=0.24.6"
metrics-exporter-prometheus = "=0.18.3"
sysinfo = "=0.37.2"
