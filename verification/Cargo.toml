[package]
name = "skit"
version = "0.1.0"
edition = "2021"
publish = false

[dependencies]
anyhow = "=1.0.104"
arboard = "=3.6.1"
clap = { version = "=4.6.7", features = ["derive"] }
env_logger = "=0.11.11"
log = "=0.4.34"
minreq = { version = "=3.0.0", features = ["https"] }
serde_json = "=1.0.151"
serde_yaml = "=0.9.34"
xmltree = { version = "=0.12.0", features = ["attribute-sorted"] }
