[package]
name = "process_runner"
version = "0.1.0"
edition = "2021"
publish = false

[dependencies]
strip-ansi-escapes = "*"
serde = { version = "*", features = ["derive"] }
serde_json = "*"
log = "*"
env_logger = "*"
colored = "*"
indicatif = "*"
indicatif-log-bridge = "*"
num_cpus = "*"
