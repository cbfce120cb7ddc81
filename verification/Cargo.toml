[package]
name = "ruuvi_reader_rs"
version = "0.1.0"
edition = "2021"
publish = false

[dependencies]
async-trait = "*"
btleplug = "*"
futures = "*"
ruuvi-sensor-protocol = "*"
serde = { version = "*", features = ["derive"] }
serde_json = "*"
tokio = { version = "*", features = ["macros", "rt-multi-thread"] }
