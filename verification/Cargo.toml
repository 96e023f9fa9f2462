[package]
name = "vpscheck"
version = "0.1.0"
edition = "2021"
publish = false

[dependencies]
actix-web = "*"
actix-ws = "*"
futures-util = "*"
tokio = { version = "*", features = ["time", "macros", "rt"] }
sysinfo = "*"
procfs = "*"

[dev-dependencies]
serde_json = "*"
