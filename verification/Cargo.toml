[package]
name = "sys2mqtt"
version = "0.1.0"
edition = "2021"
publish = false

[dependencies]
rumqttc = { version = "*", default-features = false }
serde = { version = "1", features = ["derive"] }
serde_yaml = "0.9"
tokio = { version = "1", features = ["rt-multi-thread", "macros", "time"] }
chrono = "0.4"
dirs = "*"
log = "0.4"
env_logger = "*"
machine-uid = "*"
sysinfo = "*"
user-idle = "*"
async-trait = "*"
