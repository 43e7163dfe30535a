[package]
name = "vxs"
version = "0.1.0"
edition = "2021"
publish = false

[dependencies]
base64 = "*"
clap = { version = "*", features = ["derive"] }
infer = "*"
log = "*"
serde = { version = "*", features = ["derive"] }
serde_yaml = "*"
sysinfo = "*"
tokio = { version = "*", features = ["full"] }
