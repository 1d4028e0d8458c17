[package]
name = "ec2-by-name"
version = "0.1.0"
edition = "2021"
publish = false

[dependencies]
async-std-resolver = "=0.24.4"
aws-config = { version = "=1.13.0", features = ["behavior-version-latest"] }
aws-types = "=1.7.0"
chrono = { version = "=0.4.45", default-features = false, features = ["std", "now"] }
env_logger = "=0.11.11"
futures = "=0.3.34"
getopts = "=0.2.24"
humantime = "=2.4.0"
log = "=0.4.34"
tokio = { version = "=1.54.1", features = ["macros", "rt-multi-thread"] }
