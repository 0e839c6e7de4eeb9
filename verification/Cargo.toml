[package]
name = "gcs_index"
version = "0.1.0"
edition = "2021"
publish = false

[dependencies]
env_logger = "=0.11.11"
google-cloud-storage = "=1.20.0"
log = "=0.4.34"
time = "=0.3.55"
tokio = { version = "=1.53.2", features = ["macros", "rt-multi-thread"] }
warp = { version = "=0.4.3", features = ["server"] }
