[package]
name = "data_collection"
version = "0.1.0"
edition = "2021"
publish = false

[dependencies]
chrono = "=0.4.45"
clap = { version = "=4.6.7", features = ["derive"] }
color-eyre = "=0.6.5"
mosquitto-rs = "=0.11.2"
rusqlite = { version = "=0.41.0", features = ["bundled", "fallible_uint"] }
tokio = { version = "=1.54.1", features = ["macros", "rt-multi-thread", "time"] }
