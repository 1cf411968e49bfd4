[package]
name = "netplay"
version = "0.1.0"
edition = "2021"
publish = false

[dependencies]
tokio = { version = "1", features = ["rt-multi-thread", "net", "time"] }
uuid = { version = "1", features = ["v4"] }
md5 = "0.7"
