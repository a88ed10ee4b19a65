[package]
name = "yabai_master_stack"
version = "0.1.0"
edition = "2021"
publish = false

[dependencies]
anyhow = "1"
env_logger = "*"
log = "0.4"
run_script = "*"
serde = { version = "1", features = ["derive"] }
serde_json = "1"
