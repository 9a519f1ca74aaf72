[package]
name = "fancontrol"
version = "0.1.0"
edition = "2021"
publish = false

[dependencies]
sysinfo = "*"
tokio = { version = "1", features = ["macros", "process", "rt-multi-thread", "sync"] }
