[package]
name = "udp_to_redis"
version = "0.1.0"
edition = "2021"
publish = false

[dependencies]
argparse = "0.2"
druid = "0.7"
env_logger = "0.10"
log = "0.4"
redis = "0.23"
serde_json = "1"
