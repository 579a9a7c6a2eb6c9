[package]
name = "influx_client"
version = "0.1.0"
edition = "2021"
publish = false

[dependencies]
reqwest = { version = "=0.13.5", default-features = false }

[dev-dependencies]
http = "1"
