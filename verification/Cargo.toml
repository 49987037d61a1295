[package]
name = "cattle_herd"
version = "0.1.0"
edition = "2021"
publish = false

[dependencies]
anyhow = "=1.0.104"
clap = { version = "=4.6.7", features = ["derive"] }
p384 = "=0.13.1"
rand = "=0.8.8"
serde = { version = "=1.0.229", features = ["derive"] }
sysinfo = "=0.30.13"
toml = "=1.1.7"
uuid = { version = "=1.27.0", features = ["v4"] }
