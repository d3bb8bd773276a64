[package]
name = "nxt"
version = "0.1.0"
edition = "2021"
publish = false

[dependencies]
rusb = "*"
bluer = { version = "*", features = ["bluetoothd", "rfcomm"] }
tokio = { version = "*", features = ["rt", "io-util", "sync", "time"] }
futures = "*"
