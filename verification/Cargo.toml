[package]
name = "featherfly"
version = "0.1.0"
edition = "2021"
publish = false

[dependencies]
constant_time_eq = "*"
cron = "*"
serde = { version = "1", features = ["derive"] }
serde_json = "1"
serde_norway = "*"
uuid = { version = "1", features = ["v4"] }
clap = { version = "4", features = ["derive"] }
colored = "*"
chrono = "0.4"
