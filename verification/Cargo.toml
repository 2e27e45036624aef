[package]
name = "ble_fitness"
version = "0.1.0"
edition = "2021"
publish = false

[dependencies]
btleplug = "*"
futures = "*"
serde = { version = "*", features = ["derive"] }
tokio = { version = "*", features = ["rt-multi-thread", "macros", "sync", "time"] }
uuid = "*"
